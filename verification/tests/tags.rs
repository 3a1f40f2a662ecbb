use pve_api_types::tags::tag_iter;

#[test]
fn tags_are_split_at_semicolons() {
    assert_eq!(tag_iter(Some("prod;web;db")), vec!["prod", "web", "db"]);
}

#[test]
fn tag_edge_cases() {
    assert_eq!(tag_iter(None), Vec::<String>::new());
    assert_eq!(tag_iter(Some("")), vec![""]);
    assert_eq!(tag_iter(Some("a;")), vec!["a", ""]);
    assert_eq!(tag_iter(Some(";;")), vec!["", "", ""]);
    assert_eq!(tag_iter(Some("ünï;cödé")), vec!["ünï", "cödé"]);
}

#[test]
fn joining_split_tags_gives_back_the_text() {
    for text in ["a;b;c", "", ";", "x;;y", "single"] {
        assert_eq!(tag_iter(Some(text)).join(";"), text);
    }
}

#[test]
fn splitting_joined_tags_gives_back_the_tags() {
    let lists: [&[&str]; 4] = [&["a", "b", "c"], &[""], &["x", "", "y"], &["ünï", "cödé"]];
    for tags in lists {
        let text = tags.join(";");
        assert_eq!(tag_iter(Some(text.as_str())), tags.to_vec());
    }
}
