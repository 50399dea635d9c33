use org_roam_protocol_installer::config::MacOSConfig;
use org_roam_protocol_installer::macos_installer::MacOSRoamProtocolInstaller;
use org_roam_protocol_installer::plist::{PlistError, rewrite_plist, url_association_fragment};

#[test]
fn write_url_association_into_plist() {
    let installer = MacOSRoamProtocolInstaller::new(MacOSConfig {
        emacsclient_path: String::from("foo"),
    });
    let input = "<?xml version=\"1.0\" encoding=\"utf-8\"?><plist version=\"1.0\"><dict></dict></plist>";

    let vec = installer.rewrite_plist(input);

    let plist_element = String::from(url_association_fragment())
        .lines()
        .collect::<Vec<_>>()
        .join("");
    let expect = format!(
        "<?xml version=\"1.0\" encoding=\"utf-8\"?><plist version=\"1.0\"><dict>{}</dict></plist>",
        plist_element
    );
    assert_eq!(vec.unwrap().replace("\n", ""), expect)
}

#[test]
fn inserts_fragment_directly_inside_dict_span() {
    let input = "<?xml version=\"1.0\" encoding=\"utf-8\"?><plist version=\"1.0\"><dict></dict></plist>";

    let out = rewrite_plist(input).unwrap();

    let expect = format!(
        "<?xml version=\"1.0\" encoding=\"utf-8\"?><plist version=\"1.0\"><dict>{}</dict></plist>",
        url_association_fragment()
    );
    assert_eq!(out, expect);
}

#[test]
fn inserts_before_first_dictionary_close_only() {
    let input = "<plist><dict><key>a</key></dict><dict></dict></plist>";

    let out = rewrite_plist(input).unwrap();

    let expect = format!(
        "<plist><dict><key>a</key>{}</dict><dict></dict></plist>",
        url_association_fragment()
    );
    assert_eq!(out, expect);
    let fragment_starts = out.matches(url_association_fragment()).count();
    assert_eq!(fragment_starts, 1);
}

#[test]
fn removing_fragment_restores_input() {
    let input = "<plist><dict><key>a</key><string>b</string></dict></plist>";

    let out = rewrite_plist(input).unwrap();

    let restored = out.replacen(url_association_fragment(), "", 1);
    assert_eq!(restored, input);
}

#[test]
fn dictionary_close_inside_comment_is_passed_through() {
    let input = "<plist><dict><!-- </dict> --></dict></plist>";

    let out = rewrite_plist(input).unwrap();

    let expect = format!(
        "<plist><dict><!-- </dict> -->{}</dict></plist>",
        url_association_fragment()
    );
    assert_eq!(out, expect);
}

#[test]
fn nested_dictionary_closes_first() {
    let input = "<plist><dict><key>k</key><dict></dict></dict></plist>";

    let out = rewrite_plist(input).unwrap();

    let expect = format!(
        "<plist><dict><key>k</key><dict>{}</dict></dict></plist>",
        url_association_fragment()
    );
    assert_eq!(out, expect);
}

#[test]
fn realistic_info_plist_is_rewritten_in_place() {
    let input = "<?xml version=\"1.0\" encoding=\"UTF-8\"?>\n<!DOCTYPE plist PUBLIC \"-//Apple//DTD PLIST 1.0//EN\" \"http://www.apple.com/DTDs/PropertyList-1.0.dtd\">\n<plist version=\"1.0\">\n<dict>\n\t<key>CFBundleExecutable</key>\n\t<string>applet</string>\n\t<key>CFBundleName</key>\n\t<string>OrgProtocolClient</string>\n</dict>\n</plist>\n";

    let out = rewrite_plist(input).unwrap();

    let expect = input.replacen(
        "</dict>",
        &format!("{}</dict>", url_association_fragment()),
        1,
    );
    assert_eq!(out, expect);
}

#[test]
fn document_without_dictionary_is_rejected() {
    let input = "<?xml version=\"1.0\" encoding=\"utf-8\"?><plist version=\"1.0\"></plist>";

    let result = rewrite_plist(input);

    assert_eq!(result, Err(PlistError::MissingDictionary));
}

#[test]
fn unclosed_tag_is_rejected_as_unparsable() {
    let input = "<plist><dict";

    let result = rewrite_plist(input);

    assert_eq!(result, Err(PlistError::Unparsable));
}

#[test]
fn malformation_after_dictionary_close_is_rejected() {
    let result = rewrite_plist("</dict><");

    assert_eq!(result, Err(PlistError::Unparsable));
}

#[test]
fn truncated_tail_after_dictionary_close_is_rejected() {
    let input = "<plist><dict></dict></plist";

    let result = rewrite_plist(input);

    assert_eq!(result, Err(PlistError::Unparsable));
}

#[test]
fn unclosed_comment_is_rejected_as_unparsable() {
    let input = "<plist><dict><!-- never closed </dict></plist>";

    let result = rewrite_plist(input);

    assert_eq!(result, Err(PlistError::Unparsable));
}

#[test]
fn self_closing_dict_is_not_a_dictionary_close() {
    let input = "<plist><dict/></plist>";

    let result = rewrite_plist(input);

    assert_eq!(result, Err(PlistError::MissingDictionary));
}
