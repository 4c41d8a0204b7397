use lemoa::data::WebImageMsg;
use lemoa::util::{
    get_web_image_msg, get_web_image_url, markdown_to_pango_markup, markup_or_source,
};

#[test]
fn image_message_loads_a_picture_that_is_there() {
    assert_eq!(
        get_web_image_msg(Some("https://example.com/a.png".to_string())),
        WebImageMsg::LoadImage("https://example.com/a.png".to_string())
    );
}

#[test]
fn image_message_unloads_where_there_is_no_picture() {
    assert_eq!(get_web_image_msg(None), WebImageMsg::Unload);
}

#[test]
fn image_message_loads_even_the_empty_address() {
    assert_eq!(get_web_image_msg(Some(String::new())), WebImageMsg::LoadImage(String::new()));
}

#[test]
fn image_url_is_the_address_or_empty() {
    assert_eq!(get_web_image_url(Some("https://example.com/a.png".to_string())), "https://example.com/a.png");
    assert_eq!(get_web_image_url(None), "");
}

#[test]
fn markup_falls_back_on_the_source() {
    assert_eq!(markup_or_source(Some("<b>x</b>".to_string()), "**x**".to_string()), "<b>x</b>");
    assert_eq!(markup_or_source(None, "**x**".to_string()), "**x**");
    assert_eq!(markup_or_source(Some(String::new()), "**x**".to_string()), "");
}

#[test]
fn markdown_emphasis_becomes_pango_tags() {
    assert_eq!(markdown_to_pango_markup("**bold**".to_string()), "\n<b>bold</b>\n");
    assert_eq!(markdown_to_pango_markup("*soft*".to_string()), "\n<i>soft</i>\n");
    assert_eq!(markdown_to_pango_markup("`code`".to_string()), "\n<tt>code</tt>\n");
}

#[test]
fn markdown_paragraph_is_set_between_line_feeds() {
    assert_eq!(markdown_to_pango_markup("plain".to_string()), "\nplain\n");
    assert_eq!(markdown_to_pango_markup("one\ntwo".to_string()), "\none two\n");
    assert_eq!(markdown_to_pango_markup("one\n\ntwo".to_string()), "\none\n\ntwo\n");
}

#[test]
fn markdown_of_nothing_is_nothing() {
    assert_eq!(markdown_to_pango_markup(String::new()), "");
}

#[test]
fn markdown_special_characters_are_escaped() {
    assert_eq!(markdown_to_pango_markup("a < b & c".to_string()), "\na &lt; b &amp; c\n");
}

#[test]
fn markdown_list_becomes_bullets() {
    assert_eq!(markdown_to_pango_markup("- one\n- two".to_string()), "\n • one\n • two\n");
    assert_eq!(markdown_to_pango_markup("1. one\n2. two".to_string()), "\n 1. one\n 2. two\n");
}

#[test]
fn markdown_heading_keeps_its_text() {
    assert_eq!(markdown_to_pango_markup("# Title".to_string()), "Title");
}

#[test]
fn markdown_link_keeps_its_target() {
    assert_eq!(
        markdown_to_pango_markup("[home](https://example.com)".to_string()),
        "\n<a href=\"https://example.com\">home</a>\n"
    );
    assert_eq!(
        markdown_to_pango_markup("see https://example.com".to_string()),
        "\nsee <a href=\"https://example.com\">https://example.com</a>\n"
    );
}

#[test]
fn markdown_quotation_is_set_in_italics() {
    assert_eq!(markdown_to_pango_markup("> said".to_string()), "<i>\nsaid\n</i>");
}

#[test]
fn markdown_fenced_code_is_set_in_typewriter() {
    assert_eq!(markdown_to_pango_markup("```\nlet x = 1;\n```".to_string()), "<tt>let x = 1;</tt>");
}

#[test]
fn render_markdown_hands_back_what_it_does_not_take() {
    assert_eq!(lemoa::util::render_markdown("- ".to_string()), Err("- ".to_string()));
    assert_eq!(lemoa::util::render_markdown("ab€```".to_string()), Err("ab€```".to_string()));
}

#[test]
fn render_markdown_renders_what_it_takes() {
    assert_eq!(
        lemoa::util::render_markdown("- one".to_string()),
        Ok("\n • one\n".to_string())
    );
    assert_eq!(lemoa::util::render_markdown(String::new()), Ok(String::new()));
}

#[test]
fn app_message_is_at_the_root() {
    assert_eq!(lemoa::AppMsg::OpenInbox, lemoa::app::AppMsg::OpenInbox);
}
