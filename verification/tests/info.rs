use squalo::info::{get_crate_info, get_crate_info_banner, AUTHOR, DESCRIPTION, NAME, REPOSITORY, VERSION};

#[test]
fn crate_info_is_the_five_labelled_lines() {
    assert_eq!(
        get_crate_info(),
        "Name: squalo\r\nDescription: 🦈 Minimal, elegant, fast, async Kraken exchange WebSocket API client | Written in Rust\r\nVersion: 0.1.5\r\nAuthor: Matteo Pisani <matteo.pisani.91@gmail.com>\r\nRepository: https://github.com/xonoxitron/squalo"
    );
}

#[test]
fn crate_info_is_built_from_the_constants() {
    let expected = format!(
        "Name: {}\r\nDescription: {}\r\nVersion: {}\r\nAuthor: {}\r\nRepository: {}",
        NAME, DESCRIPTION, VERSION, AUTHOR, REPOSITORY
    );
    assert_eq!(get_crate_info(), expected);
}

#[test]
fn crate_info_has_no_trailing_line_break() {
    let info = get_crate_info();
    assert!(!info.ends_with("\r\n"));
    assert_eq!(info.matches("\r\n").count(), 4);
}

#[test]
fn banner_puts_the_heading_above_the_information() {
    assert_eq!(
        get_crate_info_banner(),
        format!("-- CRATE INFO --\r\n{}", get_crate_info())
    );
}
