use debuginfo_upload_server::listing::{escape_html, render_listing};

#[test]
fn script_tag_is_escaped() {
    assert_eq!(escape_html("<script>"), "&lt;script&gt;");
}

#[test]
fn every_special_character_is_escaped() {
    assert_eq!(escape_html("a&b\"c'd"), "a&amp;b&quot;c&#39;d");
    assert_eq!(escape_html(""), "");
    assert_eq!(escape_html("plain.minidump"), "plain.minidump");
    assert_eq!(escape_html("é<ü>"), "é&lt;ü&gt;");
}

#[test]
fn listing_shows_escaped_names() {
    let names = vec!["x<script>.minidump".to_string(), "b".to_string()];
    let page = render_listing(&names);
    assert_eq!(
        page,
        "<html><body><ul><li>x&lt;script&gt;.minidump</li><li>b</li></ul></body></html>"
    );
    assert!(!page.contains("<script>"));
}

#[test]
fn empty_listing() {
    assert_eq!(render_listing(&Vec::new()), "<html><body><ul></ul></body></html>");
}
