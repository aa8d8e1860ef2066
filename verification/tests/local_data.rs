use ydav_gtk::display::{after_first_lookup, after_second_lookup, PhoneLookup};
use ydav_gtk::monitor::{after_info, monitoring_label, toggle_monitoring, Tick, Toggle};
use ydav_gtk::config::Config;
use ydav_gtk::contact::Contact;
use ydav_gtk::display::{call_label, contact_lookup_query, find_phone_name, retry_pattern, status_icon};
use ydav_gtk::fields::{ContactFields, LogFields, PhoneFields, SmsInputFields, SmsOutputFields};
use ydav_gtk::phone::Phone;
use ydav_gtk::sms_input::Sms;
use ydav_gtk::sms_scan::{copy_labels, sms_copy_labels};
use ydav_gtk::statements::{
    calls_script, clearing_filters, contacts_script, id_filter_text, sms_input_script, sms_output_insert,
    sms_output_status_update, unmark_statement,
};

fn s(x: &str) -> String {
    x.to_string()
}

#[test]
fn config_reads_back_what_it_stores() {
    let mut c = Config::new();
    assert_eq!(c.get("ip"), None);
    c.insert(s("ip"), s("1.2.3.4:1"));
    c.insert(s("politic"), s("1"));
    assert_eq!(c.get("ip"), Some(s("1.2.3.4:1")));
    c.insert(s("ip"), s("5.6.7.8:2"));
    assert_eq!(c.get("ip"), Some(s("5.6.7.8:2")));
    assert_eq!(
        c.save(),
        "BEGIN TRANSACTION;UPDATE config SET value='5.6.7.8:2' WHERE name='ip';UPDATE config SET value='1' WHERE name='politic';COMMIT;"
    );
}

#[test]
fn config_load_keeps_the_last_row() {
    let mut c = Config::new();
    c.load(vec![(s("ip"), s("a")), (s("politic"), s("")), (s("ip"), s("b"))]);
    assert_eq!(c.get("ip"), Some(s("b")));
    assert_eq!(c.get("politic"), Some(s("")));
    assert_eq!(Config::new().save(), "BEGIN TRANSACTION;COMMIT;");
}

#[test]
fn config_defaults() {
    let mut c = Config::new();
    assert_eq!(c.server_address(), "192.168.1.91:38300");
    assert_eq!(c.get("ip"), Some(s("192.168.1.91:38300")));
    assert!(!c.policy_accepted());
    assert_eq!(c.get("politic"), Some(s("")));
    c.insert(s("politic"), s("1"));
    assert!(c.policy_accepted());
    c.insert(s("ip"), s("h:1"));
    assert_eq!(c.server_address(), "h:1");
    assert_eq!(c.get_or_insert("x", "d"), "d");
    assert_eq!(c.get_or_insert("x", "e"), "d");
}

#[test]
fn statements_of_received_messages() {
    let sms = vec![
        Sms { id: s("1"), time: s("t1"), phone: s("+7"), body: s("hi") },
        Sms { id: s("2"), time: s("t2"), phone: s("+8"), body: s("yo") },
    ];
    assert_eq!(
        sms_input_script(&sms),
        "BEGIN TRANSACTION;INSERT INTO sms_input (id_na_android, phone, time, body) VALUES (\"1\", \"+7\", \"t1\", \"hi\");INSERT INTO sms_input (id_na_android, phone, time, body) VALUES (\"2\", \"+8\", \"t2\", \"yo\");COMMIT;"
    );
    assert_eq!(sms_input_script(&vec![]), "BEGIN TRANSACTION;COMMIT;");
}

#[test]
fn statements_of_contacts() {
    let c = vec![Contact { name: s("Ann"), phone: vec![s("1"), s("2")] }, Contact { name: s("Bob"), phone: vec![] }];
    assert_eq!(c[0].phone_text(), "1 2 ");
    assert_eq!(
        contacts_script(&c),
        " DELETE FROM contact;\n        UPDATE sqlite_sequence SET seq=0 WHERE name='contact'; BEGIN TRANSACTION;INSERT INTO contact (name, phone) VALUES (\"Ann\", \"1 2 \");INSERT INTO contact (name, phone) VALUES (\"Bob\", \"\");COMMIT;"
    );
}

#[test]
fn statements_of_calls() {
    let calls = vec![
        Phone { id: s("9"), time: s("t"), phone: s("+7"), status: s("RINGING") },
        Phone { id: s("10"), time: s("u"), phone: s(""), status: s("IDLE") },
    ];
    assert_eq!(
        calls_script(&calls),
        "BEGIN TRANSACTION;INSERT INTO phone_input (id_na_android, phone, time, status) VALUES (\"9\", \"+7\", \"t\", \"_\");INSERT INTO phone_input (id_na_android, phone, time, status) VALUES (\"10\", \"-\", \"u\", \"IDLE\");COMMIT;"
    );
}

#[test]
fn statements_of_sent_messages() {
    assert_eq!(
        sms_output_insert("+7", "hi"),
        "INSERT INTO sms_output (phone, text, sent, sent_time, delivery, delivery_time) VALUES (\"+7\", \"hi\", \"none\", \"none\", \"none\", \"none\");"
    );
    assert_eq!(
        sms_output_status_update("ok", "t1", "done", "t2", "4"),
        "UPDATE sms_output SET sent='ok', sent_time='t1', delivery='done', delivery_time='t2' WHERE _id=4"
    );
}

#[test]
fn clearing_filters_join_ids() {
    assert_eq!(id_filter_text(&vec![]), "");
    assert_eq!(id_filter_text(&vec![s("3")]), "_id=3");
    assert_eq!(id_filter_text(&vec![s("3"), s("5"), s("8")]), "_id=3 OR _id=5 OR _id=8");
    assert_eq!(clearing_filters(&vec![]), None);
    assert_eq!(
        clearing_filters(&vec![(s("31"), s("1")), (s("32"), s("2"))]),
        Some((s("_id=31 OR _id=32"), s("_id=1 OR _id=2")))
    );
    assert_eq!(unmark_statement("sms_input", "_id=1"), "UPDATE sms_input SET id_na_android=0 WHERE _id=1");
}

#[test]
fn call_labels() {
    assert_eq!(status_icon("IDLE"), "📱");
    assert_eq!(status_icon("RINGING"), "📲");
    assert_eq!(status_icon("OFFHOOK"), "");
    assert_eq!(call_label("+7900", "Ann", "RINGING"), "Ann(+7900) 📲");
    assert_eq!(call_label("+7900", "", "IDLE"), "+7900 📱");
    assert_eq!(call_label("", "Ann", "IDLE"), "📱");
}

#[test]
fn contact_lookup() {
    assert_eq!(contact_lookup_query("+7900"), "SELECT name FROM contact WHERE phone LIKE '%+7900%' ");
    assert_eq!(retry_pattern("+7900"), "7900");
    assert_eq!(find_phone_name::<u8>(vec![]), Ok(s("")));
    assert_eq!(find_phone_name::<u8>(vec![Ok(s("A")), Ok(s("B"))]), Ok(s("B")));
    assert_eq!(find_phone_name::<u8>(vec![Ok(s("A")), Err(3), Ok(s("B")), Err(4)]), Err(3));
}

#[test]
fn sms_copy_buttons() {
    let labels = sms_copy_labels("Code 12345, see example.com/x now; 12").unwrap();
    assert_eq!(labels, vec![s("📋 12345"), s("📋 example.com/x")]);
    assert_eq!(sms_copy_labels("no pieces here").unwrap(), Vec::<String>::new());
    assert_eq!(copy_labels(&vec![s("12"), s("123"), s("ж1")]), vec![s("📋 123"), s("📋 ж1")]);
}

#[test]
fn row_properties() {
    let mut c = ContactFields::new();
    assert!(ContactFields::has_property("name"));
    assert!(!ContactFields::has_property("time"));
    c.set_property("name", Some(s("Ann")));
    assert_eq!(c.property("name"), Some(s("Ann")));
    assert_eq!(c.property("phone"), None);
    assert_eq!(ContactFields::property_names(), vec!["name", "phone"]);

    let mut p = PhoneFields::new();
    p.set_property("id", Some(s("7")));
    p.set_property("time", Some(s("12:00")));
    assert_eq!(p.property("id"), Some(s("12:00")));
    assert_eq!(p.id, Some(s("7")));

    let mut o = SmsOutputFields::new();
    o.set_property("deliverytime", Some(s("t")));
    assert_eq!(o.property("deliverytime"), Some(s("t")));
    assert_eq!(o.property("senttime"), None);
    assert_eq!(SmsOutputFields::property_names().len(), 7);

    let mut l = LogFields::new();
    l.set_property("log", Some(s("x")));
    assert_eq!(l.property("log"), Some(s("x")));
    let mut i = SmsInputFields::new();
    i.set_property("body", Some(s("b")));
    assert_eq!(i.property("body"), Some(s("b")));
}

#[test]
fn contact_lookup_steps() {
    match after_first_lookup::<u8>("+7900", Ok(s(""))) {
        PhoneLookup::Found(n) => assert_eq!(n, ""),
        PhoneLookup::Retry(_) => panic!("a lookup that went through is not retried"),
    }
    match after_first_lookup::<u8>("+7900", Err(1)) {
        PhoneLookup::Retry(p) => assert_eq!(p, "7900"),
        PhoneLookup::Found(_) => panic!("a failed lookup is retried"),
    }
    assert_eq!(after_second_lookup::<u8>(Ok(s("Ann"))), "Ann");
    assert_eq!(after_second_lookup::<u8>(Err(2)), "");
}

#[test]
fn monitoring_steps() {
    assert_eq!(after_info(None, false), Tick { show_panels: false, new_sms: false, new_call: false, keep_running: false });
    assert_eq!(after_info(Some((2, 0)), false), Tick { show_panels: true, new_sms: true, new_call: false, keep_running: true });
    assert_eq!(after_info(Some((0, 1)), true), Tick { show_panels: true, new_sms: false, new_call: true, keep_running: false });
    assert_eq!(toggle_monitoring("▶"), Toggle { start: true, address_editable: false });
    assert_eq!(toggle_monitoring("⏹"), Toggle { start: false, address_editable: true });
    assert_eq!(monitoring_label(true), "▶");
    assert_eq!(monitoring_label(false), "⏹");
}
