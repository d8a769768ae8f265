use pbot::telegram::types::{Chat, Group, Message, User};
use pbot::utils::{
    find_inner, find_word, get_sender, is_root_user, mark_spaces, same_text, skip_run, to_decimal,
    trim, NO_SENDER,
};

fn sent_by(sender: Option<Chat>) -> Message {
    Message {
        id: 1,
        text: "x".to_string(),
        sender,
        chat: Chat::Group(Group { id: 20 }),
        reply_to_message_id: None,
    }
}

fn person(id: i32) -> Chat {
    Chat::User(User { id, is_self: false, full_name: "Someone".to_string() })
}

#[test]
fn texts_are_compared_by_their_characters() {
    assert!(same_text(&"!cufwd".to_string(), "!cufwd"));
    assert!(!same_text(&"!cufwd ".to_string(), "!cufwd"));
    assert!(!same_text(&String::new(), "!cufwd"));
    assert!(same_text(&String::new(), ""));
}

#[test]
fn sender_is_its_identifier_in_decimal() {
    assert_eq!(get_sender(&sent_by(Some(person(42)))), "42");
    assert_eq!(get_sender(&sent_by(Some(person(-7)))), "-7");
    assert_eq!(get_sender(&sent_by(Some(Chat::Group(Group { id: 2147483647 })))), "2147483647");
}

#[test]
fn unknown_sender_has_the_fixed_text() {
    assert_eq!(get_sender(&sent_by(None)), "-1145141919810");
    assert_eq!(NO_SENDER, "-1145141919810");
}

#[test]
fn root_user_is_named_by_identifier() {
    assert!(is_root_user(&sent_by(Some(person(42))), "42"));
    assert!(!is_root_user(&sent_by(Some(person(42))), "43"));
    assert!(!is_root_user(&sent_by(Some(person(42))), "042"));
    assert!(!is_root_user(&sent_by(None), "42"));
    assert!(is_root_user(&sent_by(None), "-1145141919810"));
}

#[test]
fn white_space_is_marked_character_by_character() {
    assert_eq!(mark_spaces(" a\tb\u{3000}頭\n"), vec![true, false, true, false, true, false, true]);
    assert_eq!(mark_spaces(""), Vec::<bool>::new());
    assert_eq!(mark_spaces("\u{200b}\u{a0}\u{85}"), vec![false, true, true]);
}

#[test]
fn run_is_skipped_to_its_end() {
    let marks = vec![true, true, false, false, true];
    assert_eq!(skip_run(&marks, 0, true), 2);
    assert_eq!(skip_run(&marks, 2, false), 4);
    assert_eq!(skip_run(&marks, 2, true), 2);
    assert_eq!(skip_run(&marks, 4, true), 5);
    assert_eq!(skip_run(&marks, 5, true), 5);
    assert_eq!(skip_run(&marks, 9, true), 9);
}

#[test]
fn word_is_found_by_the_marks() {
    let marks = vec![true, false, false, true, false];
    assert_eq!(find_word(&marks, 0), Some((1, 3)));
    assert_eq!(find_word(&marks, 2), Some((2, 3)));
    assert_eq!(find_word(&marks, 3), Some((4, 5)));
    assert_eq!(find_word(&marks, 5), None);
    assert_eq!(find_word(&marks, 6), None);
    assert_eq!(find_word(&vec![true, true], 0), None);
    assert_eq!(find_word(&Vec::new(), 0), None);
}

#[test]
fn inner_part_is_found_by_the_marks() {
    assert_eq!(find_inner(&vec![true, false, true, false, true, true]), (1, 4));
    assert_eq!(find_inner(&vec![false]), (0, 1));
    assert_eq!(find_inner(&vec![true, true]), (0, 0));
    assert_eq!(find_inner(&Vec::new()), (0, 0));
}

#[test]
fn trimming_takes_white_space_off_both_ends() {
    assert_eq!(trim("  s3cret word \t\n"), "s3cret word");
    assert_eq!(trim("plain"), "plain");
    assert_eq!(trim("\u{3000}頭 目\u{2003}"), "頭 目");
    assert_eq!(trim(" \n "), "");
    assert_eq!(trim(""), "");
    for text in ["", " a ", "\ta b\r\n", "\u{a0}x", "x\u{200b} "] {
        assert_eq!(trim(text), text.trim());
    }
}

#[test]
fn numbers_are_written_in_decimal() {
    assert_eq!(to_decimal(0), "0");
    assert_eq!(to_decimal(7), "7");
    assert_eq!(to_decimal(10), "10");
    assert_eq!(to_decimal(1005), "1005");
    assert_eq!(to_decimal(-1), "-1");
    assert_eq!(to_decimal(-120), "-120");
    assert_eq!(to_decimal(2147483647), "2147483647");
    assert_eq!(to_decimal(-2147483648), "-2147483648");
    for id in [0, 9, 10, 99, 100, 12345, -9, -10, -98765, i32::MAX, i32::MIN] {
        assert_eq!(to_decimal(id), id.to_string());
    }
}

#[test]
fn words_of_a_text_are_found_in_characters() {
    let text = "  頭目\u{3000}次 x";
    let marks = mark_spaces(text);
    assert_eq!(find_word(&marks, 0), Some((2, 4)));
    assert_eq!(find_word(&marks, 4), Some((5, 6)));
    assert_eq!(find_word(&marks, 6), Some((7, 8)));
    assert_eq!(find_word(&marks, 8), None);
    let joined = "a\u{200b}b";
    assert_eq!(find_word(&mark_spaces(joined), 0), Some((0, 3)));
}
