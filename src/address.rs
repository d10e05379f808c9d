//! Mailboxes: an optional display name with an address, parsed from text.
use vstd::prelude::*;
use vstd::string::*;

use crate::error::MailError;
use crate::text::{list_tokens, split_list, string_views, trim};

verus! {

/// What lettre's mailbox parser makes of a string: the display name, the
/// user and the domain, or nothing when the string is no mailbox.
pub uninterp spec fn parsed_mailbox(s: Seq<char>) -> Option<(Option<Seq<char>>, Seq<char>, Seq<char>)>;

/// How lettre writes a mailbox (name, user, domain) as header text.
pub uninterp spec fn mailbox_text(m: (Option<Seq<char>>, Seq<char>, Seq<char>)) -> Seq<char>;

/// A validated mailbox: an optional display name, a user and a domain.
#[derive(Debug)]
pub struct Mailbox {
    pub name: Option<String>,
    pub user: String,
    pub domain: String,
}

pub open spec fn opt_view(o: Option<String>) -> Option<Seq<char>> {
    match o {
        Some(s) => Some(s@),
        None => None,
    }
}

impl View for Mailbox {
    type V = (Option<Seq<char>>, Seq<char>, Seq<char>);

    open spec fn view(&self) -> Self::V {
        (opt_view(self.name), self.user@, self.domain@)
    }
}

/// `s` holds no carriage return and no line feed.
pub open spec fn no_line_break(s: Seq<char>) -> bool {
    forall|i: int| 0 <= i < s.len() ==> s[i] != '\r' && s[i] != '\n'
}

/// The display name, if there is one, can be written on a header line.
pub open spec fn name_fits_header(name: Option<Seq<char>>) -> bool {
    match name {
        Some(n) => no_line_break(n),
        None => true,
    }
}

/// The bare address `user@domain` of a mailbox.
pub open spec fn address_of(m: (Option<Seq<char>>, Seq<char>, Seq<char>)) -> Seq<char> {
    m.1 + seq!['@'] + m.2
}

/// The mailboxes of a sequence, as values.
pub open spec fn mailbox_views(v: Seq<Mailbox>) -> Seq<(Option<Seq<char>>, Seq<char>, Seq<char>)> {
    v.map_values(|m: Mailbox| m@)
}

/// Every token parses as a mailbox.
pub open spec fn all_parse(ts: Seq<Seq<char>>) -> bool {
    forall|k: int| 0 <= k < ts.len() ==> (#[trigger] parsed_mailbox(ts[k])).is_some()
}

/// The mailboxes that the tokens parse to, in order.
pub open spec fn parsed_all(ts: Seq<Seq<char>>) -> Seq<(Option<Seq<char>>, Seq<char>, Seq<char>)> {
    ts.map_values(|t: Seq<char>| parsed_mailbox(t).unwrap())
}

/// Relies on lettre's `Mailbox::from_str`: the outcome depends on the text
/// alone, the `Address::new` it ends in refuses an empty user or domain, and
/// no rule of its grammar that builds a display name admits CR or LF.
#[verifier::external_body]
fn lettre_parse(s: &str) -> (r: Option<Mailbox>)
    ensures
        r.is_some() == parsed_mailbox(s@).is_some(),
        r.is_some() ==> r.unwrap()@ == parsed_mailbox(s@).unwrap(),
        r.is_some() ==> r.unwrap().user@.len() > 0 && r.unwrap().domain@.len() > 0,
        r.is_some() ==> name_fits_header(r.unwrap()@.0),
{
    match s.parse::<lettre::message::Mailbox>() {
        Ok(m) => Some(
            Mailbox {
                user: m.email.user().to_string(),
                domain: m.email.domain().to_string(),
                name: m.name,
            },
        ),
        Err(_) => None,
    }
}

/// Relies on lettre's `Display` for `Mailbox`: a mailbox with no name, or a
/// name that is blank once trimmed, is written as `user@domain`. Writing
/// fails, and `to_string` panics, only on a name with CR or LF.
#[verifier::external_body]
fn lettre_text(m: &Mailbox) -> (r: String)
    requires
        name_fits_header(m@.0),
    ensures
        r@ == mailbox_text(m@),
        (m.name.is_none() || trim(m.name.unwrap()@).len() == 0) ==> r@ == address_of(m@),
{
    let email = lettre::Address::new_dangerous(&m.user, &m.domain);
    lettre::message::Mailbox::new(m.name.clone(), email).to_string()
}

impl Mailbox {
    /// The user and the domain are not empty, and the display name holds no
    /// line break.
    pub open spec fn wf(&self) -> bool {
        self.user@.len() > 0 && self.domain@.len() > 0 && name_fits_header(self@.0)
    }

    /// Parses one mailbox, `user@domain` or `Name <user@domain>`.
    pub fn parse(s: &str) -> (r: Result<Mailbox, MailError>)
        ensures
            r.is_ok() == parsed_mailbox(s@).is_some(),
            r.is_ok() ==> r.unwrap()@ == parsed_mailbox(s@).unwrap() && r.unwrap().wf(),
            r.is_err() ==> r == Err::<Mailbox, MailError>(MailError::InvalidAddress),
    {
        match lettre_parse(s) {
            Some(m) => Ok(m),
            None => Err(MailError::InvalidAddress),
        }
    }

    /// The display name, if there is one.
    pub fn name(&self) -> (r: Option<&str>)
        ensures
            r.is_some() == self.name.is_some(),
            r.is_some() ==> r.unwrap()@ == self.name.unwrap()@,
    {
        match &self.name {
            Some(n) => Some(n.as_str()),
            None => None,
        }
    }

    /// The part before the `@`.
    pub fn user(&self) -> (r: &str)
        ensures
            r@ == self.user@,
    {
        self.user.as_str()
    }

    /// The part after the `@`.
    pub fn domain(&self) -> (r: &str)
        ensures
            r@ == self.domain@,
    {
        self.domain.as_str()
    }

    /// The bare address, `user@domain`, without the display name.
    pub fn address(&self) -> (r: String)
        ensures
            r@ == address_of(self@),
    {
        let s = String::from_str(self.user.as_str());
        let at = "@";
        proof {
            reveal_strlit("@");
        }
        let s = s.concat(at);
        let s = s.concat(self.domain.as_str());
        assert(s@ =~= address_of(self@));
        s
    }

    /// The mailbox as header text, display name included.
    pub fn render(&self) -> (r: String)
        requires
            name_fits_header(self@.0),
        ensures
            r@ == mailbox_text(self@),
            (self@.0.is_none() || trim(self@.0.unwrap()).len() == 0) ==> r@ == address_of(self@),
    {
        lettre_text(self)
    }
}

/// Parses each token of a comma-delimited list (see `split_list`) as a
/// mailbox, in order; the first token that does not parse fails the whole list.
pub fn parse_list(s: &str) -> (r: Result<Vec<Mailbox>, MailError>)
    ensures
        r.is_ok() == all_parse(list_tokens(s@)),
        r.is_ok() ==> mailbox_views(r.unwrap()@) == parsed_all(list_tokens(s@)),
        r.is_ok() ==> forall|k: int| 0 <= k < r.unwrap()@.len() ==> (#[trigger] r.unwrap()@[k]).wf(),
        r.is_err() ==> r == Err::<Vec<Mailbox>, MailError>(MailError::InvalidAddress),
{
    let tokens = split_list(s);
    let ghost ts = list_tokens(s@);
    let mut out: Vec<Mailbox> = Vec::new();
    let mut k: usize = 0;
    while k < tokens.len()
        invariant
            string_views(tokens@) == ts,
            ts == list_tokens(s@),
            k <= tokens@.len(),
            all_parse(ts.take(k as int)),
            mailbox_views(out@) == parsed_all(ts.take(k as int)),
            forall|j: int| 0 <= j < out@.len() ==> (#[trigger] out@[j]).wf(),
        decreases tokens.len() - k,
    {
        assert(tokens@[k as int]@ == ts[k as int]);
        match Mailbox::parse(tokens[k].as_str()) {
            Ok(m) => {
                let ghost before = out@;
                assert(m@ == parsed_mailbox(ts[k as int]).unwrap());
                out.push(m);
                assert(out@ =~= before.push(m));
                assert(mailbox_views(out@) =~= mailbox_views(before).push(m@));
                assert(ts.take(k + 1) =~= ts.take(k as int).push(ts[k as int]));
                assert(mailbox_views(out@) =~= parsed_all(ts.take(k + 1)));
                k = k + 1;
            },
            Err(e) => {
                assert(!all_parse(ts));
                return Err(e);
            },
        }
    }
    assert(ts.take(k as int) =~= ts);
    Ok(out)
}

} // verus!
