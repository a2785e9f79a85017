use ulink_zenoh::keymap::to_zenoh_key_string;
use ulink_zenoh::link::ULinkZenoh;
use ulink_zenoh::model::{Remote, UAuthority, UEntity, UResource, UUri};
use ulink_zenoh::status::UCode;

fn door_uri() -> UUri {
    UUri {
        entity: Some(UEntity {
            name: "body.access".to_string(),
            version_major: Some(1),
            ..Default::default()
        }),
        resource: Some(UResource {
            name: "door".to_string(),
            instance: Some("front_left".to_string()),
            message: Some("Door".to_string()),
            ..Default::default()
        }),
        ..Default::default()
    }
}

fn key_of(text: &str) -> String {
    to_zenoh_key_string(&UUri::default(), Some(text)).unwrap()
}

#[test]
fn test_to_zenoh_key_string() {
    // create uuri for test
    let uuri = door_uri();
    assert_eq!(
        ULinkZenoh::<(), (), ()>::to_zenoh_key_string(
            &uuri,
            Some("/body.access/1/door.front_left#Door")
        )
        .unwrap(),
        String::from("up/body.access/1/door.front_left\\3Door")
    );
}

#[test]
fn key_of_text_without_leading_slash() {
    assert_eq!(
        to_zenoh_key_string(&door_uri(), Some("body.access/1/door.front_left#Door")).unwrap(),
        "up/body.access/1/door.front_left\\3Door"
    );
}

#[test]
fn key_mapping_is_repeatable() {
    let uri = door_uri();
    let first = to_zenoh_key_string(&uri, Some("/body.access/1/door.front_left#Door"));
    let second = to_zenoh_key_string(&uri, Some("/body.access/1/door.front_left#Door"));
    assert_eq!(first, second);
}

#[test]
fn only_one_leading_slash_is_stripped() {
    // the second and third slash form a pair
    assert_eq!(key_of("///a"), "up/\\/a");
}

#[test]
fn every_reserved_character_is_escaped() {
    assert_eq!(key_of("a*b"), "up/a\\8b");
    assert_eq!(key_of("a$b"), "up/a\\4b");
    assert_eq!(key_of("a?b"), "up/a\\0b");
    assert_eq!(key_of("a#b"), "up/a\\3b");
    assert_eq!(key_of("*$?#"), "up/\\8\\4\\0\\3");
    assert_eq!(key_of("**"), "up/\\8\\8");
}

#[test]
fn slash_pairs_are_escaped_from_the_left() {
    assert_eq!(key_of("a//b"), "up/a\\/b");
    assert_eq!(key_of("a///b"), "up/a\\//b");
    assert_eq!(key_of("a////b"), "up/a\\/\\/b");
    assert_eq!(key_of("a/b"), "up/a/b");
}

#[test]
fn text_with_remote_authority_loses_one_slash() {
    // the slash that stays has no partner left to form a pair with
    assert_eq!(key_of("//vcu.vin/body.access/1/door"), "up//vcu.vin/body.access/1/door");
}

#[test]
fn backslashes_and_other_text_stay() {
    assert_eq!(key_of("a\\8b"), "up/a\\8b");
    assert_eq!(key_of("käse/日本"), "up/käse/日本");
}

#[test]
fn empty_text_maps_to_the_bare_prefix() {
    assert_eq!(key_of(""), "up/");
    assert_eq!(key_of("/"), "up/");
}

#[test]
fn key_matches_the_replacements_of_std() {
    for text in ["/a/b#c", "x*y$z?w#v//u", "////", "a//", "//a*", "plain"] {
        let stripped = text.strip_prefix('/').unwrap_or(text);
        let expected = format!(
            "up/{}",
            stripped
                .replace('*', "\\8")
                .replace('$', "\\4")
                .replace('?', "\\0")
                .replace('#', "\\3")
                .replace("//", "\\/")
        );
        assert_eq!(key_of(text), expected);
    }
}

fn with_remote(remote: Option<Remote>) -> UUri {
    UUri { authority: Some(UAuthority { remote }), ..door_uri() }
}

#[test]
fn wildcard_authority_maps_to_double_star() {
    let uri = with_remote(Some(Remote::Name("*".to_string())));
    assert_eq!(
        to_zenoh_key_string(&uri, Some("//*/body.access/1/door.front_left#Door")).unwrap(),
        "up/**"
    );
    assert_eq!(to_zenoh_key_string(&uri, Some("anything at all")).unwrap(), "up/**");
    assert_eq!(to_zenoh_key_string(&uri, Some("")).unwrap(), "up/**");
    assert!(uri.is_wildcard_authority());
}

#[test]
fn only_the_name_star_is_the_wildcard() {
    for remote in [
        Some(Remote::Name("**".to_string())),
        Some(Remote::Name("".to_string())),
        Some(Remote::Name("vcu".to_string())),
        Some(Remote::Ip(vec![b'*'])),
        Some(Remote::Id(vec![b'*'])),
        None,
    ] {
        let uri = with_remote(remote);
        assert!(!uri.is_wildcard_authority());
        assert_eq!(to_zenoh_key_string(&uri, Some("/a#b")).unwrap(), "up/a\\3b");
    }
    assert!(!door_uri().is_wildcard_authority());
}

#[test]
fn address_without_text_form_has_no_key() {
    let status = to_zenoh_key_string(&door_uri(), None).unwrap_err();
    assert_eq!(status.code, UCode::Internal);
    assert_eq!(status.message, "Unable to transform to Zenoh key");
    // the wildcard does not make up for it
    let uri = with_remote(Some(Remote::Name("*".to_string())));
    let status = to_zenoh_key_string(&uri, None).unwrap_err();
    assert_eq!(status.code, UCode::Internal);
    assert_eq!(status.message, "Unable to transform to Zenoh key");
}
