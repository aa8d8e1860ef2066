//! Text messages sent through the phone, and their delivery status.

use vstd::prelude::*;
use crate::command::{request_line, CommandSend};
use crate::exchange::{Action, ActionView, Exchange, Stage};
use crate::json::{json_member, json_object, json_plain, lemma_three_members, lemma_two_members, object, quoted};

verus! {

/// The outcome of one stage of sending (sent or delivered) and its time.
#[derive(Clone, Debug, PartialEq, Eq, Default)]
pub struct ResultStatus {
    pub result: String,
    pub time: String,
}

/// The sending and the delivery outcome of one message.
#[derive(Clone, Debug, PartialEq, Eq, Default)]
pub struct Status {
    pub sent: ResultStatus,
    pub delivery: ResultStatus,
}

/// A message's status as the phone sends it, with the phone's clock time.
#[derive(Clone, Debug, PartialEq, Eq, Default)]
pub struct StatusSMSOutput {
    pub time: String,
    pub status: Status,
}

/// A decoded status together with the reply text it came from.
#[derive(Clone, Debug, PartialEq, Eq, Default)]
pub struct SmsOutputLog {
    pub status: StatusSMSOutput,
    pub json: String,
}

/// A message to send: its local id, the number, and the text.
#[derive(Clone, Debug, PartialEq, Eq, Default)]
pub struct SmsOutputParam {
    pub id: String,
    pub phone: String,
    pub text: String,
}

/// The message as a JSON object `{"id":..,"phone":..,"text":..}`.
pub open spec fn sms_output_object(id: Seq<char>, phone: Seq<char>, text: Seq<char>) -> Seq<char> {
    json_object(seq![("id"@, id), ("phone"@, phone), ("text"@, text)])
}

impl SmsOutputParam {
    /// The message as the JSON object `{"id":..,"phone":..,"text":..}`.
    pub fn json(self) -> (out: String)
        ensures
            out@ == sms_output_object(self.id@, self.phone@, self.text@),
            json_plain(self.id@) && json_plain(self.phone@) && json_plain(self.text@) ==> out@ == "{\"id\":\""@
                + self.id@ + "\",\"phone\":\""@ + self.phone@ + "\",\"text\":\""@ + self.text@ + "\"}"@,
    {
        let ghost (id, phone, text) = (self.id@, self.phone@, self.text@);
        let fields = vec![("id", self.id), ("phone", self.phone), ("text", self.text)];
        let out = object(&fields);
        proof {
            let views = crate::json::field_views(fields@);
            assert(views =~= seq![("id"@, id), ("phone"@, phone), ("text"@, text)]);
            if json_plain(id) && json_plain(phone) && json_plain(text) {
                reveal_strlit("id");
                reveal_strlit("phone");
                reveal_strlit("text");
                reveal_strlit("{\"id\":\"");
                reveal_strlit("\",\"phone\":\"");
                reveal_strlit("\",\"text\":\"");
                reveal_strlit("\"}");
                assert(views[0].0 == "id"@);
                assert(views[1].0 == "phone"@);
                assert(views[2].0 == "text"@);
                lemma_three_members(views);
                assert(json_member(views[0]) == quoted("id"@) + seq![':'] + quoted(id));
                assert(json_member(views[1]) == quoted("phone"@) + seq![':'] + quoted(phone));
                assert(json_member(views[2]) == quoted("text"@) + seq![':'] + quoted(text));
                assert(out@ =~= "{\"id\":\""@ + id + "\",\"phone\":\""@ + phone + "\",\"text\":\""@ + text
                    + "\"}"@);
            }
        }
        out
    }
}

impl SmsOutputLog {
    /// Starts the exchange that hands the message `sms_output_param` to the
    /// phone for sending, to the server at `address` (command `SMS_OUTPUT`,
    /// the message's JSON object as parameter).
    pub fn send(address: String, sms_output_param: SmsOutputParam) -> (r: (Exchange, Action))
        ensures
            r.0.stage() == Stage::Connecting,
            r.0.address() == address@,
            r.0.request() == request_line(
                CommandSend::SmsOutput,
                sms_output_object(sms_output_param.id@, sms_output_param.phone@, sms_output_param.text@),
            ),
            r.1@ == ActionView::Connect(address@),
    {
        let param = sms_output_param.json();
        Exchange::start(address, CommandSend::SmsOutput, param.as_str())
    }

    /// Starts the exchange that asks the server at `address` for the status
    /// of the message with local id `id` (command `SMS_OUTPUT_STATUS`).
    pub fn status(address: String, id: &str) -> (r: (Exchange, Action))
        ensures
            r.0.stage() == Stage::Connecting,
            r.0.address() == address@,
            r.0.request() == request_line(CommandSend::SmsOutputStatus, id@),
            r.1@ == ActionView::Connect(address@),
    {
        Exchange::start(address, CommandSend::SmsOutputStatus, id)
    }

    /// The log of a finished exchange: the decoded status with its reply
    /// text, or the exchange's error message unchanged.
    pub fn finish(reply: Result<(StatusSMSOutput, String), String>) -> (r: Result<SmsOutputLog, String>)
        ensures
            match reply {
                Ok((v, json)) => r == Ok::<SmsOutputLog, String>(SmsOutputLog { status: v, json }),
                Err(e) => r == Err::<SmsOutputLog, String>(e),
            },
    {
        match reply {
            Ok((v, json)) => Ok(SmsOutputLog { status: v, json }),
            Err(e) => Err(e),
        }
    }
}

} // verus!
