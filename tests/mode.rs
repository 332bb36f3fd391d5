use matrixmail::mode::Mode;

#[test]
fn mail_and_mailx_select_send_mode() {
    assert_eq!(Mode::from_program_name("mail"), Mode::Send);
    assert_eq!(Mode::from_program_name("mailx"), Mode::Send);
}

#[test]
fn other_names_select_setup_mode() {
    assert_eq!(Mode::from_program_name("matrixmail"), Mode::Setup);
    assert_eq!(Mode::from_program_name("mailxx"), Mode::Setup);
    assert_eq!(Mode::from_program_name(""), Mode::Setup);
}
