use renderenko::naming::{fresh_image_file_name, image_file_name};
use renderenko::text::push_decimal;

#[test]
fn decimal_text_of_numbers() {
    for (n, text) in [(0u32, "0"), (7, "7"), (10, "10"), (500, "500"), (u32::MAX, "4294967295")] {
        let mut s = String::from("x");
        push_decimal(&mut s, n);
        assert_eq!(s, format!("x{}", text));
    }
}

#[test]
fn file_name_layout() {
    assert_eq!(image_file_name("abc", 500, 1000), "abc-w_500_h_1000.png");
    assert_eq!(image_file_name("", 0, 7), "-w_0_h_7.png");
}

fn is_uuid_v4_text(s: &str) -> bool {
    let chars: Vec<char> = s.chars().collect();
    chars.len() == 36
        && chars.iter().enumerate().all(|(i, c)| {
            if i == 8 || i == 13 || i == 18 || i == 23 {
                *c == '-'
            } else {
                c.is_ascii_digit() || ('a'..='f').contains(c)
            }
        })
        && chars[14] == '4'
        && "89ab".contains(chars[19])
}

#[test]
fn fresh_file_name_is_keyed_by_a_uuid() {
    let name = fresh_image_file_name(64, 32);
    assert!(name.ends_with("-w_64_h_32.png"));
    assert!(is_uuid_v4_text(&name[..36]));
    assert_eq!(name.len(), 36 + "-w_64_h_32.png".len());
}

#[test]
fn fresh_file_names_do_not_clash() {
    let a = fresh_image_file_name(100, 100);
    let b = fresh_image_file_name(100, 100);
    assert_ne!(a, b);
    assert_ne!(image_file_name("0123", 1, 2), image_file_name("0124", 1, 2));
}
