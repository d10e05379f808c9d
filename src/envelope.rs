//! The envelope of one message: sender, recipients, subject and body.
use vstd::prelude::*;
use vstd::string::*;

use crate::address::{
    address_of, all_parse, mailbox_views, parse_list, parsed_all, parsed_mailbox, Mailbox,
};
use crate::error::MailError;
use crate::text::{list_tokens, string_views};

verus! {

/// A mailbox as a value: display name, user and domain.
pub type MailboxValue = (Option<Seq<char>>, Seq<char>, Seq<char>);

/// An envelope as a value.
pub struct EnvelopeValue {
    pub from: MailboxValue,
    pub to: Seq<MailboxValue>,
    pub cc: Seq<MailboxValue>,
    pub bcc: Seq<MailboxValue>,
    pub subject: Seq<char>,
    pub body: Seq<char>,
}

/// A message ready for submission. The To list is never empty; Bcc entries
/// are delivered to but never written into a header.
pub struct Envelope {
    pub from: Mailbox,
    pub to: Vec<Mailbox>,
    pub cc: Vec<Mailbox>,
    pub bcc: Vec<Mailbox>,
    pub subject: String,
    pub body: String,
}

impl View for Envelope {
    type V = EnvelopeValue;

    open spec fn view(&self) -> EnvelopeValue {
        EnvelopeValue {
            from: self.from@,
            to: mailbox_views(self.to@),
            cc: mailbox_views(self.cc@),
            bcc: mailbox_views(self.bcc@),
            subject: self.subject@,
            body: self.body@,
        }
    }
}

/// The tokens of an optional list; an absent list has none.
pub open spec fn opt_tokens(o: Option<Seq<char>>) -> Seq<Seq<char>> {
    match o {
        Some(s) => list_tokens(s),
        None => Seq::empty(),
    }
}

pub open spec fn opt_str(o: Option<&str>) -> Option<Seq<char>> {
    match o {
        Some(s) => Some(s@),
        None => None,
    }
}

/// Every address string of a send parses: the sender and each token of the
/// To, Cc and Bcc lists.
pub open spec fn addresses_valid(
    from: Seq<char>,
    to: Seq<char>,
    cc: Option<Seq<char>>,
    bcc: Option<Seq<char>>,
) -> bool {
    parsed_mailbox(from).is_some() && all_parse(list_tokens(to)) && all_parse(opt_tokens(cc))
        && all_parse(opt_tokens(bcc))
}

/// What building an envelope from these strings gives: `InvalidAddress` if
/// any address does not parse, else `NoRecipients` if the To list is empty,
/// else the envelope of the parsed mailboxes in input order.
pub open spec fn envelope_outcome(
    from: Seq<char>,
    to: Seq<char>,
    subject: Seq<char>,
    body: Seq<char>,
    cc: Option<Seq<char>>,
    bcc: Option<Seq<char>>,
) -> Result<EnvelopeValue, MailError> {
    if !addresses_valid(from, to, cc, bcc) {
        Err(MailError::InvalidAddress)
    } else if list_tokens(to).len() == 0 {
        Err(MailError::NoRecipients)
    } else {
        Ok(
            EnvelopeValue {
                from: parsed_mailbox(from).unwrap(),
                to: parsed_all(list_tokens(to)),
                cc: parsed_all(opt_tokens(cc)),
                bcc: parsed_all(opt_tokens(bcc)),
                subject,
                body,
            },
        )
    }
}

/// The bare addresses of a sequence of mailboxes.
pub open spec fn addresses(v: Seq<MailboxValue>) -> Seq<Seq<char>> {
    v.map_values(|m: MailboxValue| address_of(m))
}

/// The addresses written into the headers: From, then To, then Cc.
pub open spec fn header_addresses_of(e: EnvelopeValue) -> Seq<Seq<char>> {
    seq![address_of(e.from)] + addresses(e.to) + addresses(e.cc)
}

/// The addresses the relay delivers to: To, then Cc, then Bcc.
pub open spec fn recipients_of(e: EnvelopeValue) -> Seq<Seq<char>> {
    addresses(e.to) + addresses(e.cc) + addresses(e.bcc)
}

pub open spec fn all_wf(v: Seq<Mailbox>) -> bool {
    forall|k: int| 0 <= k < v.len() ==> (#[trigger] v[k]).wf()
}

fn parse_optional(o: Option<&str>) -> (r: Result<Vec<Mailbox>, MailError>)
    ensures
        r.is_ok() == all_parse(opt_tokens(opt_str(o))),
        r.is_ok() ==> mailbox_views(r.unwrap()@) == parsed_all(opt_tokens(opt_str(o)))
            && all_wf(r.unwrap()@),
        r.is_err() ==> r == Err::<Vec<Mailbox>, MailError>(MailError::InvalidAddress),
{
    match o {
        Some(s) => parse_list(s),
        None => {
            let v: Vec<Mailbox> = Vec::new();
            assert(mailbox_views(v@) =~= parsed_all(Seq::empty()));
            Ok(v)
        },
    }
}

fn push_addresses(out: &mut Vec<String>, v: &Vec<Mailbox>)
    ensures
        string_views(final(out)@) == string_views(old(out)@) + addresses(mailbox_views(v@)),
{
    let ghost start = string_views(out@);
    let mut k: usize = 0;
    while k < v.len()
        invariant
            k <= v@.len(),
            string_views(out@) == start + addresses(mailbox_views(v@.take(k as int))),
        decreases v.len() - k,
    {
        let a = v[k].address();
        let ghost before = out@;
        out.push(a);
        proof {
            assert(out@ =~= before.push(a));
            assert(v@.take(k + 1) =~= v@.take(k as int).push(v@[k as int]));
            assert(mailbox_views(v@.take(k + 1)) =~= mailbox_views(v@.take(k as int)).push(
                v@[k as int]@,
            ));
            assert(addresses(mailbox_views(v@.take(k + 1))) =~= addresses(
                mailbox_views(v@.take(k as int)),
            ).push(a@));
            assert(string_views(out@) =~= string_views(before).push(a@));
        }
        k = k + 1;
    }
    assert(v@.take(k as int) =~= v@);
}

impl Envelope {
    /// The sender parses, the To list is not empty, and every mailbox is
    /// well formed.
    pub open spec fn wf(&self) -> bool {
        self.from.wf() && self.to@.len() > 0 && all_wf(self.to@) && all_wf(self.cc@) && all_wf(
            self.bcc@,
        )
    }

    /// Builds the envelope of a send. `to`, `cc` and `bcc` are
    /// comma-delimited lists; an absent or empty Cc or Bcc list is no error,
    /// an empty To list is. The first address that does not parse, sender
    /// first, then To, Cc and Bcc, fails the build.
    pub fn build(
        from: &str,
        to: &str,
        subject: &str,
        body: &str,
        cc: Option<&str>,
        bcc: Option<&str>,
    ) -> (r: Result<Envelope, MailError>)
        ensures
            match r {
                Ok(e) => envelope_outcome(from@, to@, subject@, body@, opt_str(cc), opt_str(bcc))
                    == Ok::<EnvelopeValue, MailError>(e@) && e.wf(),
                Err(err) => envelope_outcome(
                    from@,
                    to@,
                    subject@,
                    body@,
                    opt_str(cc),
                    opt_str(bcc),
                ) == Err::<EnvelopeValue, MailError>(err),
            },
    {
        let sender = match Mailbox::parse(from) {
            Ok(m) => m,
            Err(err) => return Err(err),
        };
        let to_list = match parse_list(to) {
            Ok(v) => v,
            Err(err) => return Err(err),
        };
        let cc_list = match parse_optional(cc) {
            Ok(v) => v,
            Err(err) => return Err(err),
        };
        let bcc_list = match parse_optional(bcc) {
            Ok(v) => v,
            Err(err) => return Err(err),
        };
        assert(mailbox_views(to_list@).len() == to_list@.len());
        if to_list.len() == 0 {
            return Err(MailError::NoRecipients);
        }
        let e = Envelope {
            from: sender,
            to: to_list,
            cc: cc_list,
            bcc: bcc_list,
            subject: String::from_str(subject),
            body: String::from_str(body),
        };
        Ok(e)
    }

    /// The addresses that appear in the headers: From, To and Cc, in order.
    /// Bcc addresses are not among them.
    pub fn header_addresses(&self) -> (r: Vec<String>)
        ensures
            string_views(r@) == header_addresses_of(self@),
    {
        let mut out: Vec<String> = Vec::new();
        let a = self.from.address();
        out.push(a);
        assert(string_views(out@) =~= seq![address_of(self.from@)]);
        push_addresses(&mut out, &self.to);
        push_addresses(&mut out, &self.cc);
        out
    }

    /// The addresses the message is delivered to: To, Cc and Bcc, in order.
    pub fn recipients(&self) -> (r: Vec<String>)
        ensures
            string_views(r@) == recipients_of(self@),
    {
        let mut out: Vec<String> = Vec::new();
        assert(string_views(out@) =~= Seq::empty());
        push_addresses(&mut out, &self.to);
        push_addresses(&mut out, &self.cc);
        push_addresses(&mut out, &self.bcc);
        assert(string_views(out@) =~= recipients_of(self@));
        out
    }
}

} // verus!
