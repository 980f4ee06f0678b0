use ostt::locator::{candidate_paths, locate, LocateError};

#[test]
fn candidates_put_well_known_paths_first() {
    let c = candidate_paths(&vec!["/home/u/bin".to_string(), "/snap/bin".to_string()]);
    assert_eq!(
        c,
        vec![
            "/opt/homebrew/bin/ffmpeg".to_string(),
            "/usr/local/bin/ffmpeg".to_string(),
            "/usr/bin/ffmpeg".to_string(),
            "/home/u/bin/ffmpeg".to_string(),
            "/snap/bin/ffmpeg".to_string(),
        ]
    );
}

#[test]
fn locate_picks_the_first_executable() {
    let c = candidate_paths(&vec!["/x".to_string()]);
    assert_eq!(locate(&c, &vec![false, true, true, true]), Ok("/usr/local/bin/ffmpeg".to_string()));
    assert_eq!(locate(&c, &vec![false, false, false, true]), Ok("/x/ffmpeg".to_string()));
}

#[test]
fn locate_reports_not_found() {
    let c = candidate_paths(&vec![]);
    assert_eq!(locate(&c, &vec![false, false, false]), Err(LocateError::NotFound));
    assert_eq!(locate(&c, &vec![]), Err(LocateError::NotFound));
    assert!(LocateError::NotFound.remediation().contains("Install"));
}
