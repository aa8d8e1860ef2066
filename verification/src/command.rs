//! The commands understood by the phone server and the request line that
//! carries each of them.

use vstd::prelude::*;
use crate::json::{
    json_escaped, json_member, json_members, json_object, json_plain, json_string_literal,
    json_unescaped, lemma_single_line_concat, object, quoted, single_line,
};

verus! {

/// A command of the phone server.
#[allow(non_camel_case_types)]
#[derive(Clone, Copy, Debug, PartialEq, Eq, Structural)]
pub enum CommandSend {
    INFO,
    PHONE,
    CONTACT,
    DelContact,
    SmsInput,
    DelSmsInput,
    DelPhone,
    SmsOutput,
    SmsOutputStatus,
    UssdSend,
    UssdRespond,
}

/// The name under which the server knows a command.
pub open spec fn command_name(c: CommandSend) -> Seq<char> {
    match c {
        CommandSend::INFO => "INFO"@,
        CommandSend::PHONE => "PHONE"@,
        CommandSend::CONTACT => "CONTACT"@,
        CommandSend::DelContact => "DELETE_CONTACT"@,
        CommandSend::SmsInput => "SMS_INPUT"@,
        CommandSend::DelSmsInput => "DELETE_SMS_INPUT"@,
        CommandSend::DelPhone => "DELETE_PHONE"@,
        CommandSend::SmsOutput => "SMS_OUTPUT"@,
        CommandSend::SmsOutputStatus => "SMS_OUTPUT_STATUS"@,
        CommandSend::UssdSend => "USSD_SEND"@,
        CommandSend::UssdRespond => "USSD_RESPOND"@,
    }
}

/// The request for command `c` with parameter `param`: the JSON object
/// `{"command":<name>,"param":<param>}` and a line feed.
pub open spec fn request_line(c: CommandSend, param: Seq<char>) -> Seq<char> {
    json_object(seq![("command"@, command_name(c)), ("param"@, param)]) + seq!['\n']
}

/// The request line spelled out for a parameter that needs no escaping.
pub open spec fn plain_request_line(c: CommandSend, param: Seq<char>) -> Seq<char> {
    "{\"command\":\""@ + command_name(c) + "\",\"param\":\""@ + param + "\"}\n"@
}

impl CommandSend {
    /// The name under which the server knows this command.
    pub fn name(&self) -> (n: &'static str)
        ensures
            n@ == command_name(*self),
    {
        match self {
            CommandSend::INFO => "INFO",
            CommandSend::PHONE => "PHONE",
            CommandSend::CONTACT => "CONTACT",
            CommandSend::DelContact => "DELETE_CONTACT",
            CommandSend::SmsInput => "SMS_INPUT",
            CommandSend::DelSmsInput => "DELETE_SMS_INPUT",
            CommandSend::DelPhone => "DELETE_PHONE",
            CommandSend::SmsOutput => "SMS_OUTPUT",
            CommandSend::SmsOutputStatus => "SMS_OUTPUT_STATUS",
            CommandSend::UssdSend => "USSD_SEND",
            CommandSend::UssdRespond => "USSD_RESPOND",
        }
    }

    /// The request line that sends this command with `param` to the phone.
    ///
    /// The line is a single line of text: the only line feed is the last
    /// character, whatever `param` holds.
    pub fn str_b(self, param: &str) -> (line: String)
        ensures
            line@ == request_line(self, param@),
            line@.last() == '\n',
            single_line(line@.drop_last()),
            json_plain(param@) ==> line@ == plain_request_line(self, param@),
    {
        let name = self.name();
        let fields = vec![("command", String::from_str(name)), ("param", String::from_str(param))];
        let mut line = object(&fields);
        proof {
            lemma_names_plain(self);
            reveal_strlit("command");
            reveal_strlit("param");
            let views = crate::json::field_views(fields@);
            assert(views =~= seq![("command"@, command_name(self)), ("param"@, param@)]);
            assert(views[0].0 == "command"@);
            assert(views[1].1 == param@);
            lemma_two_members_single_line(views);
        }
        let ghost body = line@;
        line.append("\n");
        proof {
            reveal_strlit("\n");
            assert(line@.drop_last() =~= body);
            if json_plain(param@) {
                let views = crate::json::field_views(fields@);
                assert(json_plain("command"@));
                assert(json_plain("param"@));
                reveal_strlit("{\"command\":\"");
                reveal_strlit("\",\"param\":\"");
                reveal_strlit("\"}\n");
                crate::json::lemma_two_members(views);
                assert(json_string_literal(views[0].0) == quoted("command"@));
                assert(json_string_literal(views[0].1) == quoted(command_name(self)));
                assert(json_string_literal(views[1].0) == quoted("param"@));
                assert(json_string_literal(views[1].1) == quoted(param@));
                assert(line@ =~= plain_request_line(self, param@));
            }
        }
        line
    }
}

/// A two-member object of single-line literals is a single line.
proof fn lemma_two_members_single_line(views: Seq<(Seq<char>, Seq<char>)>)
    requires
        views.len() == 2,
        single_line(json_string_literal(views[0].0)),
        single_line(json_string_literal(views[0].1)),
        single_line(json_string_literal(views[1].0)),
        single_line(json_string_literal(views[1].1)),
    ensures
        single_line(json_object(views)),
{
    let a = json_member(views[0]);
    let b = json_member(views[1]);
    lemma_single_line_concat(json_string_literal(views[0].0), seq![':']);
    lemma_single_line_concat(json_string_literal(views[0].0) + seq![':'], json_string_literal(views[0].1));
    lemma_single_line_concat(json_string_literal(views[1].0), seq![':']);
    lemma_single_line_concat(json_string_literal(views[1].0) + seq![':'], json_string_literal(views[1].1));
    lemma_single_line_concat(seq!['{'], a);
    lemma_single_line_concat(seq!['{'] + a, seq![',']);
    lemma_single_line_concat(seq!['{'] + a + seq![','], b);
    lemma_single_line_concat(seq!['{'] + a + seq![','] + b, seq!['}']);
    crate::json::lemma_two_members(views);
}

/// Different commands have different names, so the server can tell every
/// request apart by its command.
pub proof fn lemma_command_names_distinct(a: CommandSend, b: CommandSend)
    ensures
        a != b ==> command_name(a) != command_name(b),
{
    reveal_strlit("INFO");
    reveal_strlit("PHONE");
    reveal_strlit("CONTACT");
    reveal_strlit("DELETE_CONTACT");
    reveal_strlit("SMS_INPUT");
    reveal_strlit("DELETE_SMS_INPUT");
    reveal_strlit("DELETE_PHONE");
    reveal_strlit("SMS_OUTPUT");
    reveal_strlit("SMS_OUTPUT_STATUS");
    reveal_strlit("USSD_SEND");
    reveal_strlit("USSD_RESPOND");
    if a != b && command_name(a) == command_name(b) {
        assert(command_name(a).len() == command_name(b).len());
        assert(command_name(a)[0] == command_name(b)[0]);
        assert(command_name(a).last() == command_name(b).last());
        assert(command_name(a)[1] == command_name(b)[1]);
        assert(command_name(a)[7] == command_name(b)[7]);
    }
}

/// A request line spelled out: the command's name stands as it is, the
/// parameter as its JSON string literal.
pub proof fn lemma_request_line_spelled(c: CommandSend, param: Seq<char>)
    ensures
        request_line(c, param) == "{\"command\":\""@ + command_name(c) + "\",\"param\":"@
            + json_string_literal(param) + "}\n"@,
{
    lemma_names_plain(c);
    crate::json::lemma_literal_known("command"@);
    crate::json::lemma_literal_known("param"@);
    crate::json::lemma_literal_known(command_name(c));
    reveal_strlit("command");
    reveal_strlit("param");
    reveal_strlit("{\"command\":\"");
    reveal_strlit("\",\"param\":");
    reveal_strlit("}\n");
    assert(json_plain("command"@));
    assert(json_plain("param"@));
    let views = seq![("command"@, command_name(c)), ("param"@, param)];
    crate::json::lemma_two_members(views);
    assert(request_line(c, param) =~= "{\"command\":\""@ + command_name(c) + "\",\"param\":"@
        + json_string_literal(param) + "}\n"@);
}

/// A request line reads back: the characters between the quotes of its
/// parameter are the parameter's JSON escaping, which reads back to the
/// parameter.
pub proof fn lemma_request_line_reads_back(c: CommandSend, param: Seq<char>)
    ensures
        request_line(c, param) == "{\"command\":\""@ + command_name(c) + "\",\"param\":\""@
            + json_escaped(param) + "\"}\n"@,
        json_unescaped(json_escaped(param)) == param,
{
    lemma_request_line_spelled(c, param);
    reveal_strlit("\",\"param\":");
    reveal_strlit("\",\"param\":\"");
    reveal_strlit("}\n");
    reveal_strlit("\"}\n");
    assert(request_line(c, param) =~= "{\"command\":\""@ + command_name(c) + "\",\"param\":\""@
        + json_escaped(param) + "\"}\n"@);
    crate::json::lemma_literal_reads_back(param);
}

/// Request lines tell requests apart: two lines are equal exactly when
/// they carry the same command and the same parameter.
pub proof fn lemma_request_lines_distinct(c1: CommandSend, p1: Seq<char>, c2: CommandSend, p2: Seq<char>)
    ensures
        request_line(c1, p1) == request_line(c2, p2) <==> c1 == c2 && p1 == p2,
{
    if request_line(c1, p1) == request_line(c2, p2) {
        let head = "{\"command\":\""@;
        let mid = "\",\"param\":"@;
        let tail = "}\n"@;
        reveal_strlit("{\"command\":\"");
        reveal_strlit("\",\"param\":");
        reveal_strlit("}\n");
        lemma_request_line_spelled(c1, p1);
        lemma_request_line_spelled(c2, p2);
        lemma_names_plain(c1);
        lemma_names_plain(c2);
        let n1 = command_name(c1);
        let n2 = command_name(c2);
        let l1 = json_string_literal(p1);
        let l2 = json_string_literal(p2);
        let line = request_line(c1, p1);
        assert(line == head + n1 + mid + l1 + tail);
        assert(line == head + n2 + mid + l2 + tail);
        assert(head.len() == 12);
        assert(mid.len() == 10);
        if n1.len() < n2.len() {
            assert(line[12 + n1.len() as int] == mid[0]);
            assert(line[12 + n1.len() as int] == n2[n1.len() as int]);
            assert(crate::json::json_plain_char(n2[n1.len() as int]));
        }
        if n2.len() < n1.len() {
            assert(line[12 + n2.len() as int] == mid[0]);
            assert(line[12 + n2.len() as int] == n1[n2.len() as int]);
            assert(crate::json::json_plain_char(n1[n2.len() as int]));
        }
        assert(n1.len() == n2.len());
        assert forall|i: int| 0 <= i < n1.len() implies n1[i] == n2[i] by {
            assert(line[12 + i] == n1[i]);
            assert(line[12 + i] == n2[i]);
        }
        assert(n1 =~= n2);
        lemma_command_names_distinct(c1, c2);
        let start: int = 22 + n1.len() as int;
        assert(l1 =~= line.subrange(start, line.len() - 2));
        assert(l2 =~= line.subrange(start, line.len() - 2));
        crate::json::lemma_literal_injective(p1, p2);
    }
}

/// Every command name is plain text for JSON.
pub proof fn lemma_names_plain(c: CommandSend)
    ensures
        json_plain(command_name(c)),
{
    reveal_strlit("INFO");
    reveal_strlit("PHONE");
    reveal_strlit("CONTACT");
    reveal_strlit("DELETE_CONTACT");
    reveal_strlit("SMS_INPUT");
    reveal_strlit("DELETE_SMS_INPUT");
    reveal_strlit("DELETE_PHONE");
    reveal_strlit("SMS_OUTPUT");
    reveal_strlit("SMS_OUTPUT_STATUS");
    reveal_strlit("USSD_SEND");
    reveal_strlit("USSD_RESPOND");
}

} // verus!
