use multilinguarr::config::{LanguageDefinition, LanguagesConfig};
use multilinguarr::detection::{AudioStream, DetectionResult, LanguageDetector};

fn en_fr_config() -> LanguagesConfig {
    LanguagesConfig {
        primary: "fr".to_owned(),
        alternates: vec!["en".to_owned()],
        definitions: vec![
            (
                "fr".to_owned(),
                LanguageDefinition {
                    iso_639_1: vec!["fr".to_owned()],
                    iso_639_2: vec!["fre".to_owned(), "fra".to_owned()],
                    radarr_id: 2,
                    sonarr_id: 2,
                },
            ),
            (
                "en".to_owned(),
                LanguageDefinition {
                    iso_639_1: vec!["en".to_owned()],
                    iso_639_2: vec!["eng".to_owned()],
                    radarr_id: 1,
                    sonarr_id: 1,
                },
            ),
        ],
    }
}

fn tagged(lang: Option<&str>) -> AudioStream {
    AudioStream { language: lang.map(str::to_owned), channels: None, is_commentary: false }
}

fn detect(streams: Vec<AudioStream>) -> DetectionResult {
    LanguageDetector::new(en_fr_config()).detection_from_streams(streams)
}

fn has(result: &DetectionResult, key: &str) -> bool {
    result.languages.iter().any(|k| k == key)
}

#[test]
fn single_language_detected() {
    let result = detect(vec![tagged(Some("fra"))]);
    assert!(has(&result, "fr"));
    assert_eq!(result.languages.len(), 1);
    assert!(!result.is_multi_audio);
}

#[test]
fn multi_audio_detected() {
    let result = detect(vec![tagged(Some("eng")), tagged(Some("fra"))]);
    assert!(has(&result, "fr"));
    assert!(has(&result, "en"));
    assert!(result.is_multi_audio);
}

#[test]
fn und_streams_dropped() {
    let result = detect(vec![tagged(Some("und")), tagged(Some("eng"))]);
    assert!(has(&result, "en"));
    assert!(!has(&result, "und"));
    assert_eq!(result.languages.len(), 1);
}

#[test]
fn no_language_tags_yields_empty() {
    let result = detect(vec![tagged(None)]);
    assert!(result.languages.is_empty());
    assert!(!result.is_multi_audio);
}

#[test]
fn iso_639_1_codes_matched() {
    let result = detect(vec![tagged(Some("fr"))]);
    assert!(has(&result, "fr"));
}

#[test]
fn three_languages_detected() {
    let result = detect(vec![tagged(Some("eng")), tagged(Some("fra")), tagged(Some("spa"))]);
    // spa is not configured: only en and fr match
    assert_eq!(result.languages.len(), 2);
    assert!(result.is_multi_audio);
}

#[test]
fn detection_keeps_the_probed_streams() {
    let streams = vec![tagged(Some("eng")), tagged(None)];
    let result = detect(streams.clone());
    assert_eq!(result.audio_streams.len(), 2);
    assert_eq!(result.audio_streams[0].language.as_deref(), Some("eng"));
    assert!(result.audio_streams[1].language.is_none());
}
