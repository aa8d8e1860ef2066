use ydav_gtk::command::CommandSend;
use ydav_gtk::contact::{Contact, ContactLog, Contacts};
use ydav_gtk::exchange::{Action, Event, Exchange, Stage};
use ydav_gtk::phone_delete::{PhoneCount, PhoneDelete};
use ydav_gtk::sms_input::SmsInputLog;
use ydav_gtk::sms_input_delete::SmsInputDelete;
use ydav_gtk::sms_output::{SmsOutputLog, SmsOutputParam};
use ydav_gtk::ussd::{Ussd, UssdLog};

fn text(a: &Action) -> String {
    match a {
        Action::Connect(s) | Action::Send(s) | Action::Decode(s) => s.clone(),
        Action::Receive => "<receive>".to_string(),
        Action::Finish(Ok(s)) => format!("ok:{}", s),
        Action::Finish(Err(s)) => format!("err:{}", s),
    }
}

#[test]
fn successful_exchange_returns_the_reply() {
    let (mut ex, first) = Exchange::start("10.0.0.1:38300".to_string(), CommandSend::PHONE, "");
    assert_eq!(text(&first), "10.0.0.1:38300");
    assert_eq!(ex.current_stage(), Stage::Connecting);
    assert!(ex.accepts(&Event::Connected));
    assert!(!ex.accepts(&Event::Sent));
    assert_eq!(text(&ex.step(Event::Connected)), "{\"command\":\"PHONE\",\"param\":\"\"}\n");
    assert_eq!(text(&ex.step(Event::Sent)), "<receive>");
    assert_eq!(text(&ex.step(Event::Received("{\"a\":1}".to_string()))), "{\"a\":1}");
    assert_eq!(ex.current_stage(), Stage::Decoding);
    assert_eq!(text(&ex.step(Event::Decoded)), "ok:{\"a\":1}");
    assert_eq!(ex.current_stage(), Stage::Finished);
    assert!(!ex.accepts(&Event::Decoded));
}

#[test]
fn each_failure_names_its_step() {
    let (mut ex, _) = Exchange::start("h".to_string(), CommandSend::INFO, "");
    assert_eq!(text(&ex.step(Event::ConnectFailed("refused".to_string()))), "err:Ошибка соединения: refused");
    assert_eq!(ex.current_stage(), Stage::Finished);

    let (mut ex, _) = Exchange::start("h".to_string(), CommandSend::INFO, "");
    ex.step(Event::Connected);
    assert_eq!(text(&ex.step(Event::SendFailed("pipe".to_string()))), "err:Ошибка отправки: pipe");

    let (mut ex, _) = Exchange::start("h".to_string(), CommandSend::INFO, "");
    ex.step(Event::Connected);
    ex.step(Event::Sent);
    assert_eq!(text(&ex.step(Event::ReceiveFailed("reset".to_string()))), "err:Ошибка чтения: reset");

    let (mut ex, _) = Exchange::start("h".to_string(), CommandSend::INFO, "");
    ex.step(Event::Connected);
    ex.step(Event::Sent);
    ex.step(Event::Received("nope".to_string()));
    assert_eq!(text(&ex.step(Event::DecodeFailed("eof".to_string()))), "err:Ошибка сериализации: eof");
}

#[test]
fn log_requests_use_their_commands() {
    let expect = |c: CommandSend, p: &str, (mut ex, a): (Exchange, Action)| {
        assert_eq!(text(&a), "addr");
        assert_eq!(text(&ex.step(Event::Connected)), c.str_b(p));
    };
    expect(CommandSend::CONTACT, "", ContactLog::connect("addr".to_string()));
    expect(CommandSend::SmsInput, "", SmsInputLog::connect("addr".to_string()));
    expect(CommandSend::DelPhone, "_id=3", PhoneDelete::connect("addr".to_string(), "_id=3"));
    expect(CommandSend::DelSmsInput, "_id=4", SmsInputDelete::connect("addr".to_string(), "_id=4"));
    expect(CommandSend::UssdSend, "*100#", UssdLog::send("addr".to_string(), "*100#".to_string()));
    expect(CommandSend::UssdRespond, "", UssdLog::response("addr".to_string()));
    expect(CommandSend::SmsOutputStatus, "7", SmsOutputLog::status("addr".to_string(), "7"));
    let p = SmsOutputParam { id: "1".to_string(), phone: "2".to_string(), text: "3".to_string() };
    expect(
        CommandSend::SmsOutput,
        "{\"id\":\"1\",\"phone\":\"2\",\"text\":\"3\"}",
        SmsOutputLog::send("addr".to_string(), p),
    );
}

#[test]
fn finish_wraps_the_record_or_passes_the_error() {
    let contacts = Contacts {
        time: "12:00".to_string(),
        contact: vec![Contact { name: "A".to_string(), phone: vec!["1".to_string()] }],
    };
    let log = ContactLog::finish(Ok((contacts.clone(), "{}".to_string()))).unwrap();
    assert_eq!(log.contacts, contacts);
    assert_eq!(log.json, "{}");
    assert_eq!(ContactLog::finish(Err("e".to_string())), Err("e".to_string()));

    let u = Ussd { failure: "".to_string(), response: "Баланс 10".to_string() };
    let log = UssdLog::finish(Ok((u.clone(), "j".to_string()))).unwrap();
    assert_eq!(log.ussd, u);
    let c = PhoneCount { time: "t".to_string(), phone: 3 };
    assert_eq!(PhoneDelete::finish(Ok((c.clone(), "j".to_string()))).unwrap().phone, c);
    assert_eq!(PhoneDelete::finish(Err("x".to_string())).unwrap_err(), "x");
}
