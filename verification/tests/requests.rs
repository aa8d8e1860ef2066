use ydav_gtk::command::CommandSend;
use ydav_gtk::contact_add::ContactNewParam;
use ydav_gtk::json::{object, quote};
use ydav_gtk::sms_output::SmsOutputParam;

#[test]
fn str_b_info_without_parameter() {
    assert_eq!(CommandSend::INFO.str_b(""), "{\"command\":\"INFO\",\"param\":\"\"}\n");
}

#[test]
fn str_b_uses_the_server_names() {
    let cases = [
        (CommandSend::INFO, "INFO"),
        (CommandSend::PHONE, "PHONE"),
        (CommandSend::CONTACT, "CONTACT"),
        (CommandSend::DelContact, "DELETE_CONTACT"),
        (CommandSend::SmsInput, "SMS_INPUT"),
        (CommandSend::DelSmsInput, "DELETE_SMS_INPUT"),
        (CommandSend::DelPhone, "DELETE_PHONE"),
        (CommandSend::SmsOutput, "SMS_OUTPUT"),
        (CommandSend::SmsOutputStatus, "SMS_OUTPUT_STATUS"),
        (CommandSend::UssdSend, "USSD_SEND"),
        (CommandSend::UssdRespond, "USSD_RESPOND"),
    ];
    for (c, name) in cases {
        assert_eq!(c.name(), name);
        assert_eq!(c.str_b("x"), format!("{{\"command\":\"{}\",\"param\":\"x\"}}\n", name));
    }
}

#[test]
fn str_b_escapes_the_parameter() {
    assert_eq!(
        CommandSend::DelPhone.str_b("_id=1 OR \"x\"\n"),
        "{\"command\":\"DELETE_PHONE\",\"param\":\"_id=1 OR \\\"x\\\"\\n\"}\n"
    );
}

#[test]
fn str_b_is_a_single_line() {
    let line = CommandSend::UssdSend.str_b("a\nb\r\n\tc\u{1}");
    assert!(line.ends_with('\n'));
    assert_eq!(line.matches('\n').count(), 1);
    assert!(!line[..line.len() - 1].chars().any(|c| (c as u32) < 0x20));
}

#[test]
fn quote_plain_and_escaped() {
    assert_eq!(quote("abc"), "\"abc\"");
    assert_eq!(quote("Привет"), "\"Привет\"");
    assert_eq!(quote("a\\b"), "\"a\\\\b\"");
    assert_eq!(quote("\u{1}"), "\"\\u0001\"");
}

#[test]
fn object_frames_members_in_order() {
    assert_eq!(object(&vec![]), "{}");
    assert_eq!(object(&vec![("a", "1".to_string())]), "{\"a\":\"1\"}");
    assert_eq!(
        object(&vec![("a", "1".to_string()), ("b", "x\"y".to_string())]),
        "{\"a\":\"1\",\"b\":\"x\\\"y\"}"
    );
}

#[test]
fn contact_new_param_json() {
    let p = ContactNewParam { name: "Иван".to_string(), phone: "+7900".to_string() };
    assert_eq!(p.json(), "{\"name\":\"Иван\",\"phone\":\"+7900\"}");
}

#[test]
fn sms_output_param_json() {
    let p = SmsOutputParam { id: "5".to_string(), phone: "+7900".to_string(), text: "hi \"you\"".to_string() };
    assert_eq!(p.json(), "{\"id\":\"5\",\"phone\":\"+7900\",\"text\":\"hi \\\"you\\\"\"}");
}

#[test]
fn request_lines_tell_requests_apart() {
    let params = ["", "a", "a\"", "a\\\"", "\u{1}", "\\u0001", "x\ny"];
    let commands = [CommandSend::INFO, CommandSend::PHONE, CommandSend::DelPhone, CommandSend::DelSmsInput];
    let mut lines = Vec::new();
    for c in commands {
        for p in params {
            lines.push(c.str_b(p));
        }
    }
    for i in 0..lines.len() {
        for j in 0..lines.len() {
            assert_eq!(lines[i] == lines[j], i == j);
        }
    }
}

#[test]
fn request_line_parses_back() {
    let p = "say \"hi\"\\\n\t\u{1f}ж";
    let line = CommandSend::UssdSend.str_b(p);
    let v: serde_json::Value = serde_json::from_str(&line[..line.len() - 1]).unwrap();
    assert_eq!(v["command"], "USSD_SEND");
    assert_eq!(v["param"], p);
    assert_eq!(quote("\u{8}\u{c}\r\t\u{1f}"), "\"\\b\\f\\r\\t\\u001f\"");
}
