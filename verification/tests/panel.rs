use sdr_remote::panel::{cached_scan_serials, format_duration_short, infer_model_from_serial};
use sdr_remote::settings::TunerModel;

#[test]
fn model_guessed_from_serial() {
    assert_eq!(infer_model_from_serial("TUNER-JC3S-01"), TunerModel::Jc3s);
    assert_eq!(infer_model_from_serial("jc3s"), TunerModel::Jc3s);
    assert_eq!(infer_model_from_serial("JC4S"), TunerModel::Jc4s);
    assert_eq!(infer_model_from_serial("3"), TunerModel::Jc4s);
    assert_eq!(infer_model_from_serial(""), TunerModel::Jc4s);
    assert_eq!(infer_model_from_serial("s3"), TunerModel::Jc4s);
}

#[test]
fn scan_serials_skip_empty() {
    let scan = Some(Ok(vec!["A1".to_string(), String::new(), "B2".to_string()]));
    assert_eq!(cached_scan_serials(&scan), vec!["A1".to_string(), "B2".to_string()]);
    assert!(cached_scan_serials(&None).is_empty());
    assert!(cached_scan_serials(&Some(Err("no bus".to_string()))).is_empty());
}

#[test]
fn durations_written_short() {
    assert_eq!(format_duration_short(0), "0s");
    assert_eq!(format_duration_short(59), "59s");
    assert_eq!(format_duration_short(60), "1m 0s");
    assert_eq!(format_duration_short(3599), "59m 59s");
    assert_eq!(format_duration_short(3600), "1h 0m");
    assert_eq!(format_duration_short(90061), "25h 1m");
}
