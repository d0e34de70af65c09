use gorkitale::assets::asset_list;
use gorkitale::assets::LoadProgress;
use gorkitale::assets::ASSET_COUNT;
use gorkitale::defs::Language;
use gorkitale::settings::GlobalSettings;
use gorkitale::system::SystemState;
use gorkitale::system::User;
use gorkitale::system::wrap_text;
use gorkitale::system::PANIC_WRAP_WIDTH;
use gorkitale::textfmt::decimal_u64;
use gorkitale::textfmt::decimal_u64_padded;
use gorkitale::textfmt::find_char;
use gorkitale::textfmt::hex_u64;
use gorkitale::textfmt::parse_u32;
use gorkitale::textfmt::split_str;

#[test]
fn decimal_and_hex_render_exactly() {
    assert_eq!(decimal_u64(0), "0");
    assert_eq!(decimal_u64(7), "7");
    assert_eq!(decimal_u64(30000), "30000");
    assert_eq!(decimal_u64(u64::MAX), "18446744073709551615");
    assert_eq!(hex_u64(0), "0");
    assert_eq!(hex_u64(0xdeadbeef), "deadbeef");
    assert_eq!(hex_u64(0x10), "10");
    assert_eq!(decimal_u64_padded(7, 2, false), " 7");
    assert_eq!(decimal_u64_padded(7, 6, true), "000007");
    assert_eq!(decimal_u64_padded(123456, 6, true), "123456");
    assert_eq!(decimal_u64_padded(1234567, 6, true), "1234567");
}

#[test]
fn parse_u32_accepts_exactly_digit_strings_that_fit() {
    assert_eq!(parse_u32("0"), Some(0));
    assert_eq!(parse_u32("42"), Some(42));
    assert_eq!(parse_u32("4294967295"), Some(u32::MAX));
    assert_eq!(parse_u32("4294967296"), None);
    assert_eq!(parse_u32("99999999999999999999"), None);
    assert_eq!(parse_u32(""), None);
    assert_eq!(parse_u32("+42"), None);
    assert_eq!(parse_u32("12a"), None);
    assert_eq!(parse_u32(" 1"), None);
}

#[test]
fn split_and_find() {
    let parts = split_str("en,100", ',');
    assert_eq!(parts, vec!["en", "100"]);
    assert_eq!(split_str("", ','), vec![""]);
    assert_eq!(split_str(",", ','), vec!["", ""]);
    assert_eq!(split_str("a,,b", ','), vec!["a", "", "b"]);
    assert_eq!(find_char("a,b", ',', 0), Some(1));
    assert_eq!(find_char("a,b", ',', 2), None);
    assert_eq!(find_char("ab", ',', 0), None);
}

#[test]
fn settings_default_parse_and_record() {
    let s = GlobalSettings::new();
    assert_eq!(s.language, "en");
    assert_eq!(s.volume, 100);

    let s = GlobalSettings::parse("tr,55");
    assert_eq!(s.language, "tr");
    assert_eq!(s.volume, 55);
    assert_eq!(s.to_record(), "tr,55");

    // malformed or missing fields fall back to the defaults
    assert_eq!(GlobalSettings::parse("tr").language, "en");
    assert_eq!(GlobalSettings::parse("tr,abc").volume, 100);
    assert_eq!(GlobalSettings::parse("").volume, 100);

    // what was written is read back unchanged
    let s = GlobalSettings { language: "de".to_string(), volume: 7 };
    let back = GlobalSettings::parse(&s.to_record());
    assert_eq!(back.language, "de");
    assert_eq!(back.volume, 7);
}

#[test]
fn users_parse_with_stage_compatibility() {
    let content = "alice,1,2,3,4\nbob,5,6,7\nbroken,1\n\ncarol,0,0,0,9\n";
    let s = SystemState::from_records(content);
    assert_eq!(s.language, Language::English);
    assert!(s.current_user.is_none());
    assert!(s.panic_report.is_empty());
    assert_eq!(s.users.len(), 3);
    assert_eq!(s.users[0].username, "alice");
    assert_eq!(s.users[0].teblig_count, 1);
    assert_eq!(s.users[0].cihad_count, 2);
    assert_eq!(s.users[0].tekfir_count, 3);
    assert_eq!(s.users[0].current_stage, 4);
    // an older record without a stage field gets stage 1
    assert_eq!(s.users[1].username, "bob");
    assert_eq!(s.users[1].current_stage, 1);
    assert_eq!(s.users[2].username, "carol");
    assert_eq!(s.users[2].current_stage, 9);
}

#[test]
fn save_users_folds_current_user_back() {
    let mut s = SystemState::from_records("alice,1,2,3,4\nbob,5,6,7,8\n");
    s.current_user = Some(User {
        username: "bob".to_string(),
        teblig_count: 50,
        cihad_count: 60,
        tekfir_count: 70,
        current_stage: 80,
    });
    let record = s.save_users();
    assert_eq!(record, "alice,1,2,3,4\nbob,50,60,70,80\n");
    assert_eq!(s.users[1].teblig_count, 50);

    // the record reads back to the same users
    let back = SystemState::from_records(&record);
    assert_eq!(back.users.len(), 2);
    assert_eq!(back.users[1].current_stage, 80);

    // a current user that is not in the list changes nothing
    let mut s = SystemState::from_records("alice,1,2,3,4\n");
    s.current_user = Some(User {
        username: "mallory".to_string(),
        teblig_count: 9,
        cihad_count: 9,
        tekfir_count: 9,
        current_stage: 9,
    });
    let record = s.save_users();
    assert_eq!(record, "alice,1,2,3,4\n");
}

#[test]
fn set_user_as_top_moves_and_ignores_out_of_range() {
    let mut s = SystemState::from_records("a,0,0,0,1\nb,0,0,0,2\nc,0,0,0,3\n");
    s.set_user_as_top(2);
    let names: Vec<&str> = s.users.iter().map(|u| u.username.as_str()).collect();
    assert_eq!(names, vec!["c", "a", "b"]);
    s.set_user_as_top(5);
    let names: Vec<&str> = s.users.iter().map(|u| u.username.as_str()).collect();
    assert_eq!(names, vec!["c", "a", "b"]);
    s.set_user_as_top(0);
    let names: Vec<&str> = s.users.iter().map(|u| u.username.as_str()).collect();
    assert_eq!(names, vec!["c", "a", "b"]);
}

#[test]
fn wrap_text_chunks_exactly() {
    let wrapped = wrap_text("abcdefgh", 3);
    assert_eq!(wrapped, vec!["abc", "def", "gh"]);
    assert_eq!(wrap_text("abc", 3), vec!["abc"]);
    assert_eq!(wrap_text("", 5), vec![""]);
    assert_eq!(wrap_text("xy", 80), vec!["xy"]);
}

#[test]
fn kernel_panic_report_shape() {
    let mut s = SystemState::from_records("alice,1,2,3,4\n");
    s.generate_kernel_panic();
    let report = &s.panic_report;
    assert!(report.len() >= 21); // 20 trace lines and the prompt at least
    for line in report.iter() {
        assert!(line.chars().count() <= PANIC_WRAP_WIDTH);
    }
    assert_eq!(report[report.len() - 2], "");
    assert_eq!(report[report.len() - 1], "Press ENTER to reboot system...");
    let first = &report[0];
    assert!(first.starts_with("[    "));
    assert!(first.contains("Kernel panic - not syncing: "));
    // the timestamp is two digits, a dot, six digits: the random values
    // land in their stated ranges
    let stamp: Vec<char> = first.chars().collect();
    assert!(stamp[5].is_ascii_digit() && stamp[6].is_ascii_digit());
    assert_eq!(stamp[7], '.');
    for k in 8..14 {
        assert!(stamp[k].is_ascii_digit());
    }
    assert_eq!(stamp[14], ']');
    // the users are untouched
    assert_eq!(s.users.len(), 1);
    assert_eq!(s.users[0].username, "alice");
}

#[test]
fn asset_manifest_and_loading_progress() {
    let list = asset_list();
    assert_eq!(list.len(), ASSET_COUNT);
    assert_eq!(list[0].name, "Player Front");
    assert_eq!(list[14].path, "./assets/g6_rmx.mp3");

    let mut p = LoadProgress::new();
    let total: usize = 3;
    assert_eq!(p.step(total), Some(0));
    assert_eq!(p.step(total), Some(1));
    assert_eq!(p.step(total), Some(2));
    assert!(!p.loading_complete);
    assert_eq!(p.step(total), None);
    assert!(p.loading_complete);
    assert_eq!(p.step(total), None);
    assert_eq!(p.asset_index, 3);
}
