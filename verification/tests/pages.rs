use holo_dev::scrape::{candidates, scrape};

const PAGE: &str = r#"<!DOCTYPE html>
<html><head><title>list</title></head><body>
<div class="wiki-section-3">
  <div class="title-3"><h3>Song A</h3></div>
  <div class="wiki-section-body-3">
    メンバー：A、B、C<br>
    音源公開日：2021/05/01something-extra<br>
    ジャンル：ロック、<br>
    <a class="outlink" href="https://example.com/a">視聴</a>
    <a class="outlink">none</a>
    <a class="inner" href="https://example.com/inner">inner</a>
    <a class="outlink" href="https://example.com/a">again</a>
  </div>
</div>
<div class="wiki-section-3">
  <div class="title-3">Song B</div>
  <div class="wiki-section-body-3">作詞：X<br>作曲：Y</div>
</div>
</body></html>"#;

#[test]
fn page_with_one_good_entry_and_one_without_member() {
    let songs = scrape(PAGE).unwrap();
    assert_eq!(songs.len(), 1);
    let song = &songs[0];
    assert_eq!(song.title, "Song A");
    assert_eq!(song.member, "A、B、C");
    assert_eq!(song.published, Some(1_619_838_000));
    assert_eq!(song.links, vec!["https://example.com/a", "https://example.com/a"]);
    assert_eq!(song.properties, vec!["ジャンル：ロック", "視聴", "none", "inner", "again"]);
}

#[test]
fn candidates_are_read_as_the_page_holds_them() {
    let found = candidates(PAGE).unwrap();
    assert_eq!(found.len(), 2);
    assert_eq!(found[0].title_texts, Some(vec!["Song A".to_string()]));
    let body = found[0].body.as_ref().unwrap();
    assert_eq!(
        body.hrefs,
        vec![
            Some("https://example.com/a".to_string()),
            None,
            Some("https://example.com/a".to_string()),
        ]
    );
    assert!(body.texts.iter().any(|t| t.trim() == "メンバー：A、B、C"));
    assert_eq!(found[1].title_texts, Some(vec!["Song B".to_string()]));
    let body = found[1].body.as_ref().unwrap();
    assert!(body.hrefs.is_empty());
    assert_eq!(body.texts, vec!["作詞：X".to_string(), "作曲：Y".to_string()]);
}

#[test]
fn entry_without_title_element_gives_no_song() {
    let page = r#"<div class="wiki-section-3">
  <div class="wiki-section-body-3">メンバー：A</div>
</div>
<div class="wiki-section-3">
  <div class="title-3">Kept</div>
  <div class="wiki-section-body-3">メンバー：B</div>
</div>"#;
    let found = candidates(page).unwrap();
    assert_eq!(found.len(), 2);
    assert!(found[0].title_texts.is_none());
    let songs = scrape(page).unwrap();
    assert_eq!(songs.len(), 1);
    assert_eq!(songs[0].title, "Kept");
    assert_eq!(songs[0].member, "B");
    assert_eq!(songs[0].published, None);
}

#[test]
fn entry_without_body_element_gives_no_song() {
    let page = r#"<div class="wiki-section-3"><div class="title-3">Only title</div></div>"#;
    let found = candidates(page).unwrap();
    assert_eq!(found.len(), 1);
    assert!(found[0].body.is_none());
    assert!(scrape(page).unwrap().is_empty());
}

#[test]
fn only_the_first_title_and_body_are_read() {
    let page = r#"<div class="wiki-section-3">
  <div class="title-3">First</div>
  <div class="title-3">Second</div>
  <div class="wiki-section-body-3">メンバー：A</div>
  <div class="wiki-section-body-3">メンバー：B</div>
</div>"#;
    let songs = scrape(page).unwrap();
    assert_eq!(songs.len(), 1);
    assert_eq!(songs[0].title, "First");
    assert_eq!(songs[0].member, "A");
}

#[test]
fn title_with_nested_markup_is_ambiguous() {
    let page = r#"<div class="wiki-section-3">
  <div class="title-3">Part <b>one</b></div>
  <div class="wiki-section-body-3">メンバー：A</div>
</div>"#;
    assert!(scrape(page).unwrap().is_empty());
}

#[test]
fn page_without_entries_gives_no_song() {
    assert!(scrape("<p>nothing here</p>").unwrap().is_empty());
    assert!(scrape("").unwrap().is_empty());
    assert!(candidates("").unwrap().is_empty());
}

#[test]
fn songs_come_in_document_order() {
    let page = r#"
<div class="wiki-section-3"><div class="title-3">One</div>
  <div class="wiki-section-body-3">メンバー：A</div></div>
<div class="wiki-section-3"><div class="title-3">Two</div>
  <div class="wiki-section-body-3">メンバー：B<br>音源公開日：2020/02/29</div></div>
<div class="wiki-section-3"><div class="title-3">Three</div>
  <div class="wiki-section-body-3">メンバー：C</div></div>"#;
    let songs = scrape(page).unwrap();
    let titles: Vec<&str> = songs.iter().map(|s| s.title.as_str()).collect();
    assert_eq!(titles, vec!["One", "Two", "Three"]);
    assert_eq!(songs[1].published, Some(1_582_945_200));
}
