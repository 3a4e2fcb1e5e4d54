use claw_core::capi::paths::{
    claw_paths_get, claw_paths_join, claw_paths_set, PathRoots, CLAW_PATH_DATA, CLAW_PATH_SYSTEM,
};
use claw_core::capi::strings::read_carr;
use claw_core::errname::{ESP_ERR_INVALID_ARG, ESP_ERR_INVALID_SIZE, ESP_ERR_INVALID_STATE, ESP_OK};

fn c(s: &str) -> Option<Vec<u8>> {
    Some(s.as_bytes().to_vec())
}

#[test]
fn join_composes_and_validates() {
    let mut roots = PathRoots::new();
    assert_eq!(claw_paths_set(&mut roots, CLAW_PATH_DATA, &c("/fatfs")), ESP_OK);

    let mut out = vec![0u8; 64];
    assert_eq!(claw_paths_join(&roots, CLAW_PATH_DATA, &c("skills/foo"), &mut out), ESP_OK);
    assert_eq!(read_carr(&out), "/fatfs/skills/foo");

    let mut out2 = vec![0u8; 64];
    assert_eq!(claw_paths_join(&roots, CLAW_PATH_DATA, &None, &mut out2), ESP_OK);
    assert_eq!(read_carr(&out2), "/fatfs");

    let mut tiny = vec![0u8; 4];
    assert_eq!(claw_paths_join(&roots, CLAW_PATH_DATA, &c("skills/foo"), &mut tiny), ESP_ERR_INVALID_SIZE);
    assert_eq!(tiny, vec![0u8; 4]);
}

#[test]
fn get_and_join_reject_unset_or_bad_root() {
    let roots = PathRoots::new();
    assert!(claw_paths_get(&roots, 99).is_none());
    assert!(claw_paths_get(&roots, -1).is_none());
    let mut out = vec![0u8; 64];
    assert_eq!(claw_paths_join(&roots, 99, &c("x"), &mut out), ESP_ERR_INVALID_STATE);
}

#[test]
fn set_rejects_bad_args() {
    let mut roots = PathRoots::new();
    assert_eq!(claw_paths_set(&mut roots, 99, &c("/x")), ESP_ERR_INVALID_ARG);
    assert_eq!(claw_paths_set(&mut roots, CLAW_PATH_DATA, &None), ESP_ERR_INVALID_ARG);
    assert_eq!(claw_paths_set(&mut roots, CLAW_PATH_DATA, &c("")), ESP_ERR_INVALID_ARG);
    assert_eq!(claw_paths_set(&mut roots, CLAW_PATH_DATA, &c(&"/".repeat(40))), ESP_ERR_INVALID_SIZE);
}

#[test]
fn paths_must_be_text_and_roots_are_separate() {
    let mut roots = PathRoots::new();
    assert_eq!(claw_paths_set(&mut roots, CLAW_PATH_DATA, &Some(vec![0x2f, 0xff])), ESP_ERR_INVALID_ARG);
    assert_eq!(claw_paths_set(&mut roots, CLAW_PATH_SYSTEM, &c("/system")), ESP_OK);
    assert_eq!(claw_paths_get(&roots, CLAW_PATH_SYSTEM), Some("/system"));
    assert_eq!(claw_paths_get(&roots, CLAW_PATH_DATA), None);
    let mut none: Vec<u8> = Vec::new();
    assert_eq!(claw_paths_join(&roots, CLAW_PATH_SYSTEM, &None, &mut none), ESP_ERR_INVALID_ARG);
    let mut exact = vec![7u8; 8];
    assert_eq!(claw_paths_join(&roots, CLAW_PATH_SYSTEM, &c(""), &mut exact), ESP_OK);
    assert_eq!(exact, b"/system\0".to_vec());
}
