use path_launcher::icon::{choose_icon, first_existing, icon_candidates, IconSource, ICON_RESOURCE};

#[test]
fn resource_path_is_under_icons() {
    assert_eq!(ICON_RESOURCE, "icons/icon.ico");
}

#[test]
fn candidates_in_order() {
    let c = icon_candidates();
    let expected: Vec<Vec<&str>> = vec![
        vec!["icons", "icon.ico"],
        vec!["src-tauri", "icons", "icon.ico"],
        vec!["..", "icons", "icon.ico"],
        vec!["..", "src-tauri", "icons", "icon.ico"],
    ];
    assert_eq!(c.len(), expected.len());
    for (got, want) in c.iter().zip(expected.iter()) {
        assert_eq!(got, want);
    }
}

#[test]
fn first_existing_picks_earliest() {
    assert_eq!(first_existing(&vec![false, true, true, false]), Some(1));
    assert_eq!(first_existing(&vec![true, true]), Some(0));
    assert_eq!(first_existing(&vec![false, false, false, true]), Some(3));
}

#[test]
fn first_existing_none() {
    assert_eq!(first_existing(&vec![]), None);
    assert_eq!(first_existing(&vec![false, false, false, false]), None);
}

#[test]
fn resource_is_preferred() {
    assert_eq!(choose_icon(true, Some(vec![true, true, true, true])), Some(IconSource::Resource));
    assert_eq!(choose_icon(true, None), Some(IconSource::Resource));
}

#[test]
fn unknown_working_directory_gives_no_icon() {
    assert_eq!(choose_icon(false, None), None);
}

#[test]
fn first_existing_candidate_is_chosen() {
    assert_eq!(
        choose_icon(false, Some(vec![false, false, true, true])),
        Some(IconSource::Candidate(2))
    );
}

#[test]
fn no_existing_candidate_gives_no_icon() {
    assert_eq!(choose_icon(false, Some(vec![false, false, false, false])), None);
}
