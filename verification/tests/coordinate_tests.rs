use launcher_inventory::coordinate::parse_library_name_to_path;
use launcher_inventory::errors::LauncherError;

#[test]
fn resolves_standard_coordinate() {
    let r = parse_library_name_to_path("/cache/libs", "org.example:lib:1.2.3");
    assert_eq!(r, Ok("/cache/libs/org/example/lib/1.2.3/lib-1.2.3.jar".to_string()));
}

#[test]
fn rejects_coordinate_with_too_few_segments() {
    let r = parse_library_name_to_path("/cache/libs", "bad-coordinate");
    assert_eq!(r, Err(LauncherError::MalformedCoordinate));

    let r = parse_library_name_to_path("/cache/libs", "group:artifact");
    assert_eq!(r, Err(LauncherError::MalformedCoordinate));

    let r = parse_library_name_to_path("/cache/libs", "");
    assert_eq!(r, Err(LauncherError::MalformedCoordinate));
}

#[test]
fn rejects_empty_segments() {
    assert_eq!(
        parse_library_name_to_path("/r", ":artifact:1.0"),
        Err(LauncherError::MalformedCoordinate)
    );
    assert_eq!(
        parse_library_name_to_path("/r", "group::1.0"),
        Err(LauncherError::MalformedCoordinate)
    );
    assert_eq!(
        parse_library_name_to_path("/r", "group:artifact:"),
        Err(LauncherError::MalformedCoordinate)
    );
}

#[test]
fn deep_group_becomes_nested_path() {
    let r = parse_library_name_to_path("/r", "com.a.b.c:art:2.0");
    assert_eq!(r, Ok("/r/com/a/b/c/art/2.0/art-2.0.jar".to_string()));
}

#[test]
fn group_without_dots_stays_flat() {
    let r = parse_library_name_to_path("libs", "plain:art:0.1");
    assert_eq!(r, Ok("libs/plain/art/0.1/art-0.1.jar".to_string()));
}

#[test]
fn fourth_segment_is_ignored() {
    // Only the first three segments matter; a classifier after them is
    // dropped from the resolved path.
    let r = parse_library_name_to_path("/r", "g.h:art:1.0:natives");
    assert_eq!(r, Ok("/r/g/h/art/1.0/art-1.0.jar".to_string()));
}
