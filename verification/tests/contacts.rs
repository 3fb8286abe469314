use genshin_assistant::input_utils::{
    contact_to_mouse_down_flags, contact_to_mouse_down_message, contact_to_mouse_move_message,
    contact_to_mouse_up_flags, contact_to_mouse_up_message, make_keydown_lparam, make_keyup_lparam,
    Contact, MouseEventFlags, MouseMessageInfo,
};

fn msg(message: u32, w_param: usize) -> MouseMessageInfo {
    MouseMessageInfo { message, w_param }
}

fn flags(flags: u32, button_data: u32) -> MouseEventFlags {
    MouseEventFlags { flags, button_data }
}

#[test]
fn down_messages_of_every_contact() {
    assert_eq!(contact_to_mouse_down_message(&Contact::Left), msg(0x0201, 0x0001));
    assert_eq!(contact_to_mouse_down_message(&Contact::Right), msg(0x0204, 0x0002));
    assert_eq!(contact_to_mouse_down_message(&Contact::Middle), msg(0x0207, 0x0010));
    assert_eq!(contact_to_mouse_down_message(&Contact::X1), msg(0x020B, 0x0001_0020));
    assert_eq!(contact_to_mouse_down_message(&Contact::X2), msg(0x020B, 0x0002_0040));
}

#[test]
fn move_messages_of_every_contact() {
    assert_eq!(contact_to_mouse_move_message(&Contact::Left), msg(0x0200, 0x0001));
    assert_eq!(contact_to_mouse_move_message(&Contact::Right), msg(0x0200, 0x0002));
    assert_eq!(contact_to_mouse_move_message(&Contact::Middle), msg(0x0200, 0x0010));
    assert_eq!(contact_to_mouse_move_message(&Contact::X1), msg(0x0200, 0x0020));
    assert_eq!(contact_to_mouse_move_message(&Contact::X2), msg(0x0200, 0x0040));
}

#[test]
fn up_messages_of_every_contact() {
    assert_eq!(contact_to_mouse_up_message(&Contact::Left), msg(0x0202, 0));
    assert_eq!(contact_to_mouse_up_message(&Contact::Right), msg(0x0205, 0));
    assert_eq!(contact_to_mouse_up_message(&Contact::Middle), msg(0x0208, 0));
    assert_eq!(contact_to_mouse_up_message(&Contact::X1), msg(0x020C, 0x0001_0000));
    assert_eq!(contact_to_mouse_up_message(&Contact::X2), msg(0x020C, 0x0002_0000));
}

#[test]
fn down_flags_of_every_contact() {
    assert_eq!(contact_to_mouse_down_flags(&Contact::Left), flags(0x0002, 0));
    assert_eq!(contact_to_mouse_down_flags(&Contact::Right), flags(0x0008, 0));
    assert_eq!(contact_to_mouse_down_flags(&Contact::Middle), flags(0x0020, 0));
    assert_eq!(contact_to_mouse_down_flags(&Contact::X1), flags(0x0080, 1));
    assert_eq!(contact_to_mouse_down_flags(&Contact::X2), flags(0x0080, 2));
}

#[test]
fn up_flags_of_every_contact() {
    assert_eq!(contact_to_mouse_up_flags(&Contact::Left), flags(0x0004, 0));
    assert_eq!(contact_to_mouse_up_flags(&Contact::Right), flags(0x0010, 0));
    assert_eq!(contact_to_mouse_up_flags(&Contact::Middle), flags(0x0040, 0));
    assert_eq!(contact_to_mouse_up_flags(&Contact::X1), flags(0x0100, 1));
    assert_eq!(contact_to_mouse_up_flags(&Contact::X2), flags(0x0100, 2));
}

#[test]
fn methods_agree_with_free_functions() {
    for c in [Contact::Left, Contact::Right, Contact::Middle, Contact::X1, Contact::X2] {
        assert_eq!(c.to_mouse_down_message(), contact_to_mouse_down_message(&c));
        assert_eq!(c.to_mouse_move_message(), contact_to_mouse_move_message(&c));
        assert_eq!(c.to_mouse_up_message(), contact_to_mouse_up_message(&c));
        assert_eq!(c.to_mouse_down_flags(), contact_to_mouse_down_flags(&c));
        assert_eq!(c.to_mouse_up_flags(), contact_to_mouse_up_flags(&c));
    }
}

#[test]
fn press_reports_button_state_of_move() {
    for c in [Contact::Left, Contact::Right, Contact::Middle, Contact::X1, Contact::X2] {
        assert_eq!(c.to_mouse_down_message().w_param & 0xFFFF, c.to_mouse_move_message().w_param);
        assert_eq!(c.to_mouse_up_message().message, c.to_mouse_down_message().message + 1);
        assert_eq!(c.to_mouse_up_flags().flags, c.to_mouse_down_flags().flags * 2);
    }
}

#[test]
fn keydown_lparam_of_a_scan_code() {
    assert_eq!(make_keydown_lparam(0x1E), 0x001E_0001);
    assert_eq!(make_keydown_lparam(0), 1);
}

#[test]
fn keyup_lparam_of_a_scan_code() {
    assert_eq!(make_keyup_lparam(0x1E), 0xC01E_0001u32 as isize);
    assert_eq!(make_keyup_lparam(0), 0xC000_0001u32 as isize);
}

#[test]
fn key_lparams_drop_scan_code_bits_beyond_the_word() {
    assert_eq!(make_keydown_lparam(0x1_0019), 0x0019_0001);
    assert_eq!(make_keyup_lparam(0xFFFF), 0xFFFF_0001u32 as isize);
    assert_eq!(make_keydown_lparam(0xFFFF), 0xFFFF_0001u32 as isize);
}
