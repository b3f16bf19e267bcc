//! Issue metadata and news items as stored in the key-value table: items are
//! lists of named attributes, converted to and from the library's records.
use vstd::prelude::*;
use crate::value::{append_nat, nat_text, same_text};

verus! {

broadcast use vstd::seq::group_seq_axioms;

/// One attribute of a stored item.
#[derive(Debug)]
pub enum ItemAttribute {
    /// A string.
    S(String),
    /// A number, as its decimal text.
    N(String),
    /// A list of attributes.
    L(Vec<ItemAttribute>),
    /// A list of strings.
    Ss(Vec<String>),
    /// Any other kind of attribute.
    Other,
}

/// A contributor to an issue.
#[derive(Debug, Clone)]
pub struct DBContributor {
    pub name: String,
    pub handle: String,
}

impl DBContributor {
    pub fn new(name: String, handle: String) -> (r: Self)
        ensures
            r.name == name,
            r.handle == handle,
    {
        DBContributor { name, handle }
    }
}

/// The stored metadata of one issue.
#[derive(Debug, Clone)]
pub struct DBIssue {
    pub number: usize,
    pub blurb: String,
    pub contributors: Vec<DBContributor>,
}

impl DBIssue {
    pub fn new(number: usize, blurb: String, contributors: Vec<DBContributor>) -> (r: Self)
        ensures
            r.number == number,
            r.blurb == blurb,
            r.contributors == contributors,
    {
        DBIssue { number, blurb, contributors }
    }
}

/// The value of the first attribute named `k`.
pub open spec fn binding(item: Seq<(String, ItemAttribute)>, k: Seq<char>) -> Option<ItemAttribute> {
    if exists|i: int| is_first_binding(item, k, i) {
        Some(item[choose|i: int| is_first_binding(item, k, i)].1)
    } else {
        None
    }
}

pub open spec fn is_first_binding(item: Seq<(String, ItemAttribute)>, k: Seq<char>, i: int) -> bool {
    &&& 0 <= i < item.len()
    &&& item[i].0@ == k
    &&& forall|j: int| 0 <= j < i ==> item[j].0@ != k
}

/// The index of the first attribute named `key`.
fn find_attribute(item: &Vec<(String, ItemAttribute)>, key: &str) -> (r: Option<usize>)
    ensures
        r matches Some(i) ==> i < item@.len() && binding(item@, key@) == Some(item@[i as int].1),
        r is None ==> binding(item@, key@) is None,
{
    let mut i: usize = 0;
    while i < item.len()
        invariant
            i <= item@.len(),
            forall|j: int| 0 <= j < i ==> item@[j].0@ != key@,
        decreases item.len() - i,
    {
        if same_text(item[i].0.as_str(), key) {
            proof {
                assert(is_first_binding(item@, key@, i as int));
                let c = choose|c: int| is_first_binding(item@, key@, c);
                if c < i {
                    assert(item@[c].0@ != key@);
                } else if i < c {
                    assert(item@[i as int].0@ != key@);
                }
            }
            return Some(i);
        }
        i = i + 1;
    }
    None
}

/// What reading a string attribute found.
pub enum TextAttribute {
    Missing,
    NotText,
    Text(String),
}

pub open spec fn text_binding(item: Seq<(String, ItemAttribute)>, k: Seq<char>) -> Option<Option<Seq<char>>> {
    match binding(item, k) {
        Some(ItemAttribute::S(s)) => Some(Some(s@)),
        Some(_) => Some(None),
        None => None,
    }
}

/// The string attribute `key` of `item`.
fn text_attribute(item: &Vec<(String, ItemAttribute)>, key: &str) -> (r: TextAttribute)
    ensures
        r is Missing <==> text_binding(item@, key@) is None,
        r is NotText <==> text_binding(item@, key@) == Some(None::<Seq<char>>),
        r matches TextAttribute::Text(s) ==> text_binding(item@, key@) == Some(Some(s@)),
{
    match find_attribute(item, key) {
        Some(i) => match &item[i].1 {
            ItemAttribute::S(s) => TextAttribute::Text(s.clone()),
            _ => TextAttribute::NotText,
        },
        None => TextAttribute::Missing,
    }
}

// ---------------------------------------------------------------------------
// Issues
// ---------------------------------------------------------------------------
/// Why an issue could not be read from its stored item.
#[derive(Debug)]
pub enum IssueDataError {
    /// No item is stored for the issue.
    MissingItem,
    MissingBlurb,
    BlurbNotText,
    MissingContributors,
    ContributorsNotList,
    /// A contributor is not a list of at least a name and a handle.
    MalformedContributor,
}

/// A contributor stored as the string list `[name, handle]`.
pub open spec fn contributor_of(a: ItemAttribute) -> Option<(Seq<char>, Seq<char>)> {
    match a {
        ItemAttribute::Ss(v) => if v@.len() >= 2 {
            Some((v@[0]@, v@[1]@))
        } else {
            None
        },
        _ => None,
    }
}

/// `c` is the contributor stored as `a`.
pub open spec fn stored_as(c: DBContributor, a: ItemAttribute) -> bool {
    contributor_of(a) == Some((c.name@, c.handle@))
}

/// The error reading an issue from `item` meets, if any.
pub open spec fn issue_item_error(item: Option<Vec<(String, ItemAttribute)>>) -> Option<IssueDataError> {
    match item {
        None => Some(IssueDataError::MissingItem),
        Some(it) => match text_binding(it@, "blurb"@) {
            None => Some(IssueDataError::MissingBlurb),
            Some(None) => Some(IssueDataError::BlurbNotText),
            Some(Some(_)) => match binding(it@, "contributors"@) {
                None => Some(IssueDataError::MissingContributors),
                Some(ItemAttribute::L(list)) => if forall|i: int|
                    0 <= i < list@.len() ==> (#[trigger] contributor_of(list@[i])) is Some {
                    None
                } else {
                    Some(IssueDataError::MalformedContributor)
                },
                Some(_) => Some(IssueDataError::ContributorsNotList),
            },
        },
    }
}

fn contributor_from(a: &ItemAttribute) -> (r: Option<DBContributor>)
    ensures
        r matches Some(c) ==> stored_as(c, *a),
        r is None <==> contributor_of(*a) is None,
{
    match a {
        ItemAttribute::Ss(v) => {
            if v.len() >= 2 {
                Some(DBContributor { name: v[0].clone(), handle: v[1].clone() })
            } else {
                None
            }
        },
        _ => None,
    }
}

/// Reads issue `issue_number` from its stored item.
#[verifier::loop_isolation(false)]
pub fn issue_from_item(issue_number: usize, item: &Option<Vec<(String, ItemAttribute)>>) -> (r: Result<DBIssue, IssueDataError>)
    ensures
        r is Ok <==> issue_item_error(*item) is None,
        r matches Err(e) ==> issue_item_error(*item) == Some(e),
        r matches Ok(issue) ==> {
            &&& issue.number == issue_number
            &&& item matches Some(it) && text_binding(it@, "blurb"@) == Some(Some(issue.blurb@))
            &&& item matches Some(it) && binding(it@, "contributors"@) matches Some(ItemAttribute::L(list))
                && issue.contributors@.len() == list@.len()
                && forall|i: int| 0 <= i < list@.len() ==> #[trigger] stored_as(issue.contributors@[i], list@[i])
        },
{
    let it = match item {
        Some(it) => it,
        None => {
            return Err(IssueDataError::MissingItem);
        },
    };
    let blurb = match text_attribute(it, "blurb") {
        TextAttribute::Text(s) => s,
        TextAttribute::Missing => {
            return Err(IssueDataError::MissingBlurb);
        },
        TextAttribute::NotText => {
            return Err(IssueDataError::BlurbNotText);
        },
    };
    let list = match find_attribute(it, "contributors") {
        Some(i) => match &it[i].1 {
            ItemAttribute::L(list) => list,
            _ => {
                return Err(IssueDataError::ContributorsNotList);
            },
        },
        None => {
            return Err(IssueDataError::MissingContributors);
        },
    };
    let mut contributors: Vec<DBContributor> = Vec::new();
    let mut i: usize = 0;
    while i < list.len()
        invariant
            i <= list@.len(),
            contributors@.len() == i,
            forall|j: int| 0 <= j < i ==> #[trigger] stored_as(contributors@[j], list@[j]),
            forall|j: int| 0 <= j < i ==> (#[trigger] contributor_of(list@[j])) is Some,
        decreases list.len() - i,
    {
        match contributor_from(&list[i]) {
            Some(c) => {
                contributors.push(c);
            },
            None => {
                return Err(IssueDataError::MalformedContributor);
            },
        }
        i = i + 1;
    }
    Ok(DBIssue { number: issue_number, blurb, contributors })
}

/// The stored form of a contributor: `[name, handle]`.
fn contributor_attribute(c: &DBContributor) -> (r: ItemAttribute)
    ensures
        stored_as(*c, r),
{
    let mut v: Vec<String> = Vec::new();
    v.push(c.name.clone());
    v.push(c.handle.clone());
    ItemAttribute::Ss(v)
}

/// The stored item of `issue`: its number, blurb and contributors.
pub fn issue_to_item(issue: &DBIssue) -> (r: Vec<(String, ItemAttribute)>)
    ensures
        r@.len() == 3,
        r@[0].0@ == "issueNumber"@,
        r@[0].1 matches ItemAttribute::N(t) && t@ == nat_text(issue.number as nat),
        r@[1].0@ == "blurb"@,
        r@[1].1 == ItemAttribute::S(issue.blurb),
        r@[2].0@ == "contributors"@,
        r@[2].1 matches ItemAttribute::L(list) && list@.len() == issue.contributors@.len()
            && forall|i: int| 0 <= i < list@.len() ==> #[trigger] stored_as(issue.contributors@[i], list@[i]),
{
    let mut list: Vec<ItemAttribute> = Vec::new();
    let mut i: usize = 0;
    while i < issue.contributors.len()
        invariant
            i <= issue.contributors@.len(),
            list@.len() == i,
            forall|j: int| 0 <= j < i ==> #[trigger] stored_as(issue.contributors@[j], list@[j]),
        decreases issue.contributors.len() - i,
    {
        list.push(contributor_attribute(&issue.contributors[i]));
        i = i + 1;
    }
    let mut number = String::new();
    append_nat(&mut number, issue.number as u64);
    let mut r: Vec<(String, ItemAttribute)> = Vec::new();
    r.push((String::from_str("issueNumber"), ItemAttribute::N(number)));
    r.push((String::from_str("blurb"), ItemAttribute::S(issue.blurb.clone())));
    r.push((String::from_str("contributors"), ItemAttribute::L(list)));
    r
}

// ---------------------------------------------------------------------------
// News
// ---------------------------------------------------------------------------
/// A news article, with a link to its image once one is signed.
#[derive(Debug, Clone)]
pub struct NewsItem {
    pub title: String,
    pub description: String,
    pub image_name: String,
    pub image_url: Option<String>,
}

/// The news articles served to readers.
#[derive(Debug, Clone)]
pub struct NewsAPIResponse {
    pub articles: Vec<NewsItem>,
}

/// Why news could not be read from the stored items.
#[derive(Debug)]
pub enum NewsError {
    /// The scan returned no item list.
    MissingItems,
    MissingTitle,
    MissingDescription,
    MissingImageName,
    /// One of the three attributes is not a string.
    NotText,
}

/// The news item stored as `item`, or the error reading it meets.
pub open spec fn news_item_of(item: Seq<(String, ItemAttribute)>) -> Result<(Seq<char>, Seq<char>, Seq<char>), NewsError> {
    match (text_binding(item, "title"@), text_binding(item, "description"@), text_binding(item, "image_name"@)) {
        (None, _, _) => Err(NewsError::MissingTitle),
        (Some(None), _, _) => Err(NewsError::NotText),
        (Some(Some(_)), None, _) => Err(NewsError::MissingDescription),
        (Some(Some(_)), Some(None), _) => Err(NewsError::NotText),
        (Some(Some(_)), Some(Some(_)), None) => Err(NewsError::MissingImageName),
        (Some(Some(_)), Some(Some(_)), Some(None)) => Err(NewsError::NotText),
        (Some(Some(t)), Some(Some(d)), Some(Some(i))) => Ok((t, d, i)),
    }
}

/// The news item stored as `item`, without an image link yet.
pub fn news_item_from_attributes(item: &Vec<(String, ItemAttribute)>) -> (r: Result<NewsItem, NewsError>)
    ensures
        r matches Ok(n) ==> news_item_of(item@) == Ok::<_, NewsError>((n.title@, n.description@, n.image_name@))
            && n.image_url is None,
        r matches Err(e) ==> news_item_of(item@) == Err::<(Seq<char>, Seq<char>, Seq<char>), _>(e),
{
    let title = match text_attribute(item, "title") {
        TextAttribute::Text(s) => s,
        TextAttribute::Missing => {
            return Err(NewsError::MissingTitle);
        },
        TextAttribute::NotText => {
            return Err(NewsError::NotText);
        },
    };
    let description = match text_attribute(item, "description") {
        TextAttribute::Text(s) => s,
        TextAttribute::Missing => {
            return Err(NewsError::MissingDescription);
        },
        TextAttribute::NotText => {
            return Err(NewsError::NotText);
        },
    };
    let image_name = match text_attribute(item, "image_name") {
        TextAttribute::Text(s) => s,
        TextAttribute::Missing => {
            return Err(NewsError::MissingImageName);
        },
        TextAttribute::NotText => {
            return Err(NewsError::NotText);
        },
    };
    Ok(NewsItem { title, description, image_name, image_url: None })
}

/// The news items of a scan, in order; the first error met otherwise.
#[verifier::loop_isolation(false)]
pub fn news_items_from_scan(items: &Option<Vec<Vec<(String, ItemAttribute)>>>) -> (r: Result<Vec<NewsItem>, NewsError>)
    ensures
        items is None ==> r matches Err(NewsError::MissingItems),
        r matches Ok(v) ==> items matches Some(its) && v@.len() == its@.len() && forall|i: int|
            0 <= i < its@.len() ==> news_item_of(#[trigger] its@[i]@) == Ok::<_, NewsError>(
                (v@[i].title@, v@[i].description@, v@[i].image_name@),
            ) && v@[i].image_url is None,
        r is Ok <==> (items matches Some(its) && forall|i: int|
            0 <= i < its@.len() ==> (#[trigger] news_item_of(its@[i]@)) is Ok),
{
    let its = match items {
        Some(its) => its,
        None => {
            return Err(NewsError::MissingItems);
        },
    };
    let mut out: Vec<NewsItem> = Vec::new();
    let mut i: usize = 0;
    while i < its.len()
        invariant
            i <= its@.len(),
            out@.len() == i,
            forall|j: int| 0 <= j < i ==> news_item_of(#[trigger] its@[j]@) == Ok::<_, NewsError>(
                (out@[j].title@, out@[j].description@, out@[j].image_name@),
            ) && out@[j].image_url is None,
        decreases its.len() - i,
    {
        match news_item_from_attributes(&its[i]) {
            Ok(n) => {
                out.push(n);
            },
            Err(e) => {
                return Err(e);
            },
        }
        i = i + 1;
    }
    Ok(out)
}

} // verus!
