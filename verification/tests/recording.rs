use musicus::recording::{join_part_titles, track_title};

fn titles(names: &[&str]) -> Vec<String> {
    names.iter().map(|name| name.to_string()).collect()
}

#[test]
fn parts_are_joined_in_track_order() {
    let parts = titles(&["Prelude", "Allemande", "Courante"]);
    assert_eq!(track_title(&parts, &vec![2, 0], "Unknown"), "Courante, Prelude");
    assert_eq!(join_part_titles(&parts, &vec![0, 1, 2]), "Prelude, Allemande, Courante");
}

#[test]
fn single_part_is_its_own_title() {
    let parts = titles(&["Chaconne"]);
    assert_eq!(track_title(&parts, &vec![0], "Unknown"), "Chaconne");
}

#[test]
fn repeated_part_is_repeated() {
    let parts = titles(&["Aria", "Variatio 1"]);
    assert_eq!(track_title(&parts, &vec![0, 1, 0], "?"), "Aria, Variatio 1, Aria");
}

#[test]
fn track_without_parts_gets_the_fallback() {
    let parts = titles(&["Aria"]);
    assert_eq!(track_title(&parts, &vec![], "Unbekannt"), "Unbekannt");
    assert_eq!(join_part_titles(&parts, &vec![]), "");
}

#[test]
fn translated_fallback_is_used_as_given() {
    let parts = titles(&["I. Allegro", "II. Andante"]);
    assert_eq!(track_title(&parts, &vec![0, 1], "Inconnu"), "I. Allegro, II. Andante");
    assert_eq!(track_title(&parts, &vec![], "Inconnu"), "Inconnu");
}
