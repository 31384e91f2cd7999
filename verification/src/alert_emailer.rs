use vstd::prelude::*;
use crate::alert_analyser::StateChange;
use crate::message::TxMessage;

verus! {

/// Settings for mailing alerts through an SMTP server.
pub struct AlertEmailer {
    pub from: String,
    pub to: String,
    pub hostname: String,
    pub port: u16,
    pub username: String,
    pub password: String,
}

/// The lines of the plain-text mail sent for an alert from `from` to `to`.
pub open spec fn email_lines(from: Seq<char>, to: Seq<char>) -> Seq<Seq<char>> {
    seq![
        "Content-Type: text/plain\r\n"@,
        "MIME-Version: 1.0\r\n"@,
        "From: "@ + from + "\r\n"@,
        "To: "@ + to + "\r\n"@,
        "Subject: "@ + "test_email"@ + "\r\n\r\n"@,
        "fun_email"@ + "\r\n\r\n"@,
    ]
}

/// The mail for an alert has six lines; the sender and addressee lines are
/// `From: ` and `To: ` followed by the address unchanged and a line break,
/// whatever the addresses hold.
pub proof fn law_mail_names_sender_and_addressee_unchanged(from: Seq<char>, to: Seq<char>)
    ensures
        email_lines(from, to).len() == 6,
        email_lines(from, to)[2].len() == (from.len() as int) + 8,
        email_lines(from, to)[2].subrange(0, 6) == "From: "@,
        email_lines(from, to)[2].subrange(6, 6 + (from.len() as int)) == from,
        email_lines(from, to)[2].subrange(6 + (from.len() as int), 8 + (from.len() as int)) == "\r\n"@,
        email_lines(from, to)[3].len() == (to.len() as int) + 6,
        email_lines(from, to)[3].subrange(0, 4) == "To: "@,
        email_lines(from, to)[3].subrange(4, 4 + (to.len() as int)) == to,
        email_lines(from, to)[3].subrange(4 + (to.len() as int), 6 + (to.len() as int)) == "\r\n"@,
{
    reveal_strlit("From: ");
    reveal_strlit("To: ");
    reveal_strlit("\r\n");
    let f = email_lines(from, to)[2];
    let t = email_lines(from, to)[3];
    assert(f.subrange(0, 6) =~= "From: "@);
    assert(f.subrange(6, 6 + (from.len() as int)) =~= from);
    assert(f.subrange(6 + (from.len() as int), 8 + (from.len() as int)) =~= "\r\n"@);
    assert(t.subrange(0, 4) =~= "To: "@);
    assert(t.subrange(4, 4 + (to.len() as int)) =~= to);
    assert(t.subrange(4 + (to.len() as int), 6 + (to.len() as int)) =~= "\r\n"@);
}

impl AlertEmailer {
    /// The lines of the mail for an alert: headers naming the sender and
    /// the addressee, the subject, and the message text.
    pub fn handle(&self, _msg: &TxMessage<StateChange>) -> (email_body: Vec<String>)
        ensures
            email_body@.map_values(|l: String| l@) == email_lines(self.from@, self.to@),
            email_body.len() == 6,
            email_body@[2]@ == "From: "@ + self.from@ + "\r\n"@,
            email_body@[3]@ == "To: "@ + self.to@ + "\r\n"@,
    {
        let subject = "test_email";
        let message = "fun_email";
        let mut from_line = String::from_str("From: ");
        from_line.append(self.from.as_str());
        from_line.append("\r\n");
        let mut to_line = String::from_str("To: ");
        to_line.append(self.to.as_str());
        to_line.append("\r\n");
        let mut subject_line = String::from_str("Subject: ");
        subject_line.append(subject);
        subject_line.append("\r\n\r\n");
        let mut message_line = String::from_str(message);
        message_line.append("\r\n\r\n");
        let mut email_body: Vec<String> = Vec::new();
        email_body.push(String::from_str("Content-Type: text/plain\r\n"));
        email_body.push(String::from_str("MIME-Version: 1.0\r\n"));
        email_body.push(from_line);
        email_body.push(to_line);
        email_body.push(subject_line);
        email_body.push(message_line);
        assert(email_body@.map_values(|l: String| l@) =~= email_lines(self.from@, self.to@));
        email_body
    }
}

} // verus!
