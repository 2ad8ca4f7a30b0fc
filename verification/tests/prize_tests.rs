use shara::keyboard::{agree_keyboard, initialize};
use shara::prize::{Prize, Prizes};

fn prize(id: i32, count: i16, groups: Option<&str>, selected: bool) -> Prize {
    Prize {
        id,
        teacher: format!("Викладач {}", id),
        subject: "Матаналіз".to_string(),
        prize_type: "Екзамен".to_string(),
        count,
        groups: groups.map(String::from),
        selected,
    }
}

#[test]
fn prize_text_with_groups() {
    let p = prize(3, 2, Some("ФБ-96, ФБ-95"), false);
    assert_eq!(
        p.to_text(),
        "Викладач 3\n<b>Предмет:</b> Матаналіз\n<b>Екзамен</b> [Кількість шар - 2]\n<b>Розігрується серед груп:</b> [ФБ-96, ФБ-95]"
    );
}

#[test]
fn prize_text_for_own_group() {
    let p = prize(3, -1, None, true);
    assert_eq!(
        p.to_text(),
        "Викладач 3\n<b>Предмет</b>: Матаналіз\n<b>Екзамен</b> [Кількість шар - -1]\n<b>Розігрується серед вашої групи</b>"
    );
}

#[test]
fn empty_prize_list_text() {
    assert_eq!(Prizes(vec![]).to_text(), "Не вдалося знайти шари на обрану групу");
}

#[test]
fn prize_list_text_numbers_lines() {
    let a = prize(1, 1, None, true);
    let b = prize(2, 3, Some("ФІ-11"), false);
    let expected = format!("✅ Шара №1: {}\n❌ Шара №2: {}\n", a.to_text(), b.to_text());
    assert_eq!(Prizes(vec![a, b]).to_text(), expected);
}

#[test]
fn get_map_keeps_last_of_equal_ids() {
    let first = prize(5, 1, None, false);
    let second = prize(5, 9, Some("ФФ-02"), false);
    let other = prize(-2, 1, None, false);
    let second_text = second.to_text();
    let other_text = other.to_text();
    let m = Prizes(vec![first, other, second]).get_map();
    assert_eq!(m.len(), 2);
    assert_eq!(m[&5], second_text);
    assert_eq!(m[&-2], other_text);
}

#[test]
fn agree_keyboard_layout() {
    let k = agree_keyboard();
    assert_eq!(k.rows, vec![vec!["✅".to_string(), "❌".to_string()]]);
    assert!(k.resize);
    let stored = initialize().get_agree_keyboard();
    assert_eq!(stored.rows, k.rows);
    assert!(stored.resize);
}

#[test]
fn no_prize_keyboard_for_empty_list() {
    assert!(initialize().get_prize_keyboard(Prizes(vec![])).is_none());
}

#[test]
fn prize_keyboard_sorted_by_id_one_button_per_id() {
    let p10 = prize(10, 1, None, false);
    let p7 = prize(7, 2, None, true);
    let p10b = prize(10, 4, Some("ФБ-96"), false);
    let text7 = p7.to_text();
    let text10 = p10b.to_text();
    let k = initialize().get_prize_keyboard(Prizes(vec![p10, p7, p10b])).unwrap();
    assert_eq!(k.message, format!("❌ Шара №1: {}\n❌ Шара №2: {}", text7, text10));
    assert_eq!(k.buttons.len(), 2);
    assert_eq!(k.buttons[0].text, "Шара №1");
    assert_eq!(k.buttons[0].data, "7:0");
    assert_eq!(k.buttons[1].text, "Шара №2");
    assert_eq!(k.buttons[1].data, "10:1");
}

#[test]
fn prize_keyboard_negative_id() {
    let k = initialize().get_prize_keyboard(Prizes(vec![prize(-3, 1, None, false)])).unwrap();
    assert_eq!(k.buttons[0].data, "-3:0");
}
