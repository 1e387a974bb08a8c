use wasi_ext_lib::status::{
    bool_result, mkdev, slot_result, status_result, value_result, TcsetattrAction,
};
use wasi_ext_lib::wasi_abi::kill_request;

#[test]
fn status_ok_iff_zero() {
    assert_eq!(status_result(0), Ok(()));
    assert_eq!(status_result(28), Err(28));
    assert_eq!(status_result(-17), Err(-17));
}

#[test]
fn value_result_negates_errors() {
    assert_eq!(value_result(0), Ok(0));
    assert_eq!(value_result(5), Ok(5));
    assert_eq!(value_result(-28), Err(28));
}

#[test]
fn bool_result_answers_on_one() {
    assert_eq!(bool_result(1), Ok(true));
    assert_eq!(bool_result(0), Ok(false));
    assert_eq!(bool_result(2), Ok(false));
    assert_eq!(bool_result(-9), Err(9));
}

#[test]
fn slot_value_is_handed_out_only_on_success() {
    assert_eq!(slot_result(0, 77u32), Ok(77u32));
    assert_eq!(slot_result(-3, 77u32), Err(-3));
}

#[test]
fn device_id_packs_major_above_minor() {
    assert_eq!(mkdev(0, 0), 0);
    assert_eq!(mkdev(1, 2), (1 << 20) | 2);
    assert_eq!(mkdev(1, 2), 0x100002);
    assert_eq!(mkdev(2, 0x000fffff), 2 * 0x100000 + 0x000fffff);
}

#[test]
fn kill_request_carries_the_signal_code() {
    assert_eq!(kill_request(10, wasi::SIGNAL_KILL), (10, 9));
    assert_eq!(kill_request(-1, wasi::SIGNAL_TERM), (-1, 15));
}

#[test]
fn tcsetattr_actions_are_distinct() {
    assert_ne!(TcsetattrAction::TCSANOW, TcsetattrAction::TCSADRAIN);
    assert_ne!(TcsetattrAction::TCSADRAIN, TcsetattrAction::TCSAFLUSH);
    assert_ne!(TcsetattrAction::TCSANOW, TcsetattrAction::TCSAFLUSH);
}
