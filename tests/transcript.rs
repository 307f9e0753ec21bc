use meeting_recorder::transcript::{filter_segments, filter_trimmed, is_hallucination};

fn strings(v: &[&str]) -> Vec<String> {
    v.iter().map(|s| s.to_string()).collect()
}

#[test]
fn hallucination_markers_are_detected() {
    assert!(is_hallucination("Субтитры сделал DimaTorzok"));
    assert!(is_hallucination("посетите www.example.com"));
    assert!(is_hallucination("ну..."));
    assert!(is_hallucination("♪ музыка ♪"));
    assert!(is_hallucination("Продолжение следует"));
    assert!(!is_hallucination("Добрый день, коллеги"));
    assert!(!is_hallucination(""));
}

#[test]
fn filter_drops_empty_repeats_and_hallucinations() {
    let input = strings(&["Привет", "", "Привет", "Спасибо за просмотр!", "Пока", "Привет"]);
    assert_eq!(filter_trimmed(&input), strings(&["Привет", "Пока", "Привет"]));
}

#[test]
fn segments_are_trimmed_before_filtering() {
    let input = strings(&["  Привет \n", "Привет", "   ", "\tПока"]);
    assert_eq!(filter_segments(&input), strings(&["Привет", "Пока"]));
}

#[test]
fn no_segments_give_no_text() {
    assert!(filter_segments(&vec![]).is_empty());
}
