use switchboard::scheduler::{
    com_init, task_deleted, task_enabled, task_installed, HRESULT_FILE_NOT_FOUND,
    RPC_E_CHANGED_MODE,
};

#[test]
fn com_init_dispositions() {
    assert_eq!(com_init(0), Ok(true));
    assert_eq!(com_init(1), Ok(true));
    assert_eq!(com_init(0x80010106u32 as i32), Ok(false));
    assert_eq!(RPC_E_CHANGED_MODE, 0x80010106u32 as i32);
    assert_eq!(com_init(0x80004005u32 as i32), Err(0x80004005u32 as i32));
}

#[test]
fn task_lookups() {
    assert!(task_enabled(Ok(Some(true))));
    assert!(!task_enabled(Ok(Some(false))));
    assert!(task_enabled(Ok(None)));
    assert!(!task_enabled(Err(HRESULT_FILE_NOT_FOUND)));
    assert!(task_installed(Ok(())));
    assert!(!task_installed(Err(HRESULT_FILE_NOT_FOUND)));
    assert!(!task_installed(Err(5)));
}

#[test]
fn task_deletions() {
    assert_eq!(HRESULT_FILE_NOT_FOUND, 0x80070002u32 as i32);
    assert_eq!(task_deleted(Ok(())), Ok(true));
    assert_eq!(task_deleted(Err(HRESULT_FILE_NOT_FOUND)), Ok(false));
    assert_eq!(task_deleted(Err(5)), Err(5));
}
