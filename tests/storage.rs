use nnmbackend::records::{
    issue_from_item, issue_to_item, news_item_from_attributes, news_items_from_scan, DBContributor,
    DBIssue, IssueDataError, ItemAttribute, NewsError,
};
use nnmbackend::storage::{
    bucket_for_region, issue_key, issue_number_of_key, latest_issue_number, parse_number,
    IssueListError,
};

fn s(t: &str) -> String {
    t.to_string()
}

#[test]
fn issue_keys() {
    assert_eq!(issue_key(12), "nnm_issues/issue_12.pdf");
    assert_eq!(issue_key(0), "nnm_issues/issue_0.pdf");
    assert_eq!(issue_key(usize::MAX), format!("nnm_issues/issue_{}.pdf", usize::MAX));
}

#[test]
fn buckets() {
    assert_eq!(bucket_for_region(Some("us-east-1")), Some("nonothingissues1"));
    assert_eq!(bucket_for_region(Some("us-east-2")), Some("nonothingissues"));
    assert_eq!(bucket_for_region(Some("eu-west-1")), None);
    assert_eq!(bucket_for_region(None), None);
}

#[test]
fn issue_numbers_of_keys() {
    assert_eq!(issue_number_of_key("nnm_issues/issue_7.pdf"), Some(7));
    assert_eq!(issue_number_of_key("issue_12.pdf"), Some(12));
    assert_eq!(issue_number_of_key("issue_issue_3.pdf.pdf"), Some(3));
    assert_eq!(issue_number_of_key("nnm_issues/"), Some(0));
    assert_eq!(issue_number_of_key("notes.txt"), Some(0));
    assert_eq!(issue_number_of_key("issue_x.pdf"), None);
    assert_eq!(issue_number_of_key("issue_.pdf"), None);
    assert_eq!(issue_number_of_key("issue_+4.pdf"), Some(4));
}

#[test]
fn numbers() {
    assert_eq!(parse_number("0"), Some(0));
    assert_eq!(parse_number("+15"), Some(15));
    assert_eq!(parse_number(""), None);
    assert_eq!(parse_number("+"), None);
    assert_eq!(parse_number("-1"), None);
    assert_eq!(parse_number(&usize::MAX.to_string()), Some(usize::MAX));
    assert_eq!(parse_number("99999999999999999999999"), None);
}

#[test]
fn latest_issue() {
    let keys = vec![s("nnm_issues/issue_3.pdf"), s("nnm_issues/"), s("nnm_issues/issue_11.pdf"), s("issue_5.pdf")];
    assert_eq!(latest_issue_number(&keys).unwrap(), 11);
    assert!(matches!(latest_issue_number(&vec![]), Err(IssueListError::NoIssues)));
    let bad = vec![s("issue_2.pdf"), s("issue_two.pdf")];
    assert!(matches!(latest_issue_number(&bad), Err(IssueListError::MalformedKey(k)) if k == "issue_two.pdf"));
}

fn sample_issue() -> DBIssue {
    DBIssue::new(
        4,
        s("Spring issue"),
        vec![DBContributor::new(s("Ada"), s("@ada")), DBContributor::new(s("Bo"), s("@bo"))],
    )
}

#[test]
fn issue_items_round_trip() {
    let item = issue_to_item(&sample_issue());
    assert_eq!(item.len(), 3);
    assert!(matches!(&item[0].1, ItemAttribute::N(n) if n == "4"));
    let back = issue_from_item(4, &Some(item)).unwrap();
    assert_eq!(back.blurb, "Spring issue");
    assert_eq!(back.contributors.len(), 2);
    assert_eq!(back.contributors[0].name, "Ada");
    assert_eq!(back.contributors[0].handle, "@ada");
    assert_eq!(back.contributors[1].handle, "@bo");
}

#[test]
fn issue_item_errors() {
    assert!(matches!(issue_from_item(1, &None), Err(IssueDataError::MissingItem)));
    assert!(matches!(issue_from_item(1, &Some(vec![])), Err(IssueDataError::MissingBlurb)));
    let not_text = vec![(s("blurb"), ItemAttribute::N(s("3")))];
    assert!(matches!(issue_from_item(1, &Some(not_text)), Err(IssueDataError::BlurbNotText)));
    let no_contributors = vec![(s("blurb"), ItemAttribute::S(s("b")))];
    assert!(matches!(issue_from_item(1, &Some(no_contributors)), Err(IssueDataError::MissingContributors)));
    let not_list = vec![(s("blurb"), ItemAttribute::S(s("b"))), (s("contributors"), ItemAttribute::S(s("x")))];
    assert!(matches!(issue_from_item(1, &Some(not_list)), Err(IssueDataError::ContributorsNotList)));
    let short = vec![
        (s("blurb"), ItemAttribute::S(s("b"))),
        (s("contributors"), ItemAttribute::L(vec![ItemAttribute::Ss(vec![s("only")])])),
    ];
    assert!(matches!(issue_from_item(1, &Some(short)), Err(IssueDataError::MalformedContributor)));
    let empty = vec![(s("blurb"), ItemAttribute::S(s("b"))), (s("contributors"), ItemAttribute::L(vec![]))];
    assert_eq!(issue_from_item(1, &Some(empty)).unwrap().contributors.len(), 0);
}

fn news(title: &str) -> Vec<(String, ItemAttribute)> {
    vec![
        (s("title"), ItemAttribute::S(s(title))),
        (s("description"), ItemAttribute::S(s("d"))),
        (s("image_name"), ItemAttribute::S(s("img.png"))),
    ]
}

#[test]
fn news_items() {
    let n = news_item_from_attributes(&news("Hello")).unwrap();
    assert_eq!(n.title, "Hello");
    assert_eq!(n.image_name, "img.png");
    assert!(n.image_url.is_none());
    let all = news_items_from_scan(&Some(vec![news("a"), news("b")])).unwrap();
    assert_eq!(all.len(), 2);
    assert_eq!(all[1].title, "b");
    assert!(matches!(news_items_from_scan(&None), Err(NewsError::MissingItems)));
    let mut no_desc = news("a");
    no_desc.remove(1);
    assert!(matches!(news_item_from_attributes(&no_desc), Err(NewsError::MissingDescription)));
    assert!(matches!(news_item_from_attributes(&vec![]), Err(NewsError::MissingTitle)));
    let mut bad = news("a");
    bad[2].1 = ItemAttribute::Other;
    assert!(matches!(news_items_from_scan(&Some(vec![news("a"), bad])), Err(NewsError::NotText)));
    let mut no_image = news("a");
    no_image.remove(2);
    assert!(matches!(news_item_from_attributes(&no_image), Err(NewsError::MissingImageName)));
}
