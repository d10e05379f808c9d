//! Laws of address lists and envelopes.
use vstd::prelude::*;

use crate::address::{address_of, parsed_mailbox};
use crate::envelope::{
    addresses, addresses_valid, envelope_outcome, opt_tokens, header_addresses_of, recipients_of, EnvelopeValue,
};
use crate::error::MailError;
use crate::text::{keep_piece, list_tokens, scan_list, trim, trim_end, trim_start};

verus! {

/// `s` holds no comma.
pub open spec fn comma_free(s: Seq<char>) -> bool {
    forall|i: int| 0 <= i < s.len() ==> s[i] != ','
}

proof fn lemma_trim_start_comma_free(s: Seq<char>)
    requires
        comma_free(s),
    ensures
        comma_free(trim_start(s)),
    decreases s.len(),
{
    if s.len() > 0 && crate::text::is_white_space(s[0]) {
        assert forall|i: int| 0 <= i < s.drop_first().len() implies s.drop_first()[i] != ',' by {
            assert(s.drop_first()[i] == s[i + 1]);
        }
        lemma_trim_start_comma_free(s.drop_first());
    }
}

proof fn lemma_trim_end_comma_free(s: Seq<char>)
    requires
        comma_free(s),
    ensures
        comma_free(trim_end(s)),
    decreases s.len(),
{
    if s.len() > 0 && crate::text::is_white_space(s.last()) {
        assert forall|i: int| 0 <= i < s.drop_last().len() implies s.drop_last()[i] != ',' by {
            assert(s.drop_last()[i] == s[i]);
        }
        lemma_trim_end_comma_free(s.drop_last());
    }
}

proof fn lemma_keep_piece_clean(done: Seq<Seq<char>>, piece: Seq<char>)
    requires
        comma_free(piece),
        forall|k: int| 0 <= k < done.len() ==> done[k].len() > 0 && comma_free(#[trigger] done[k]),
    ensures
        forall|k: int|
            0 <= k < keep_piece(done, piece).len() ==> keep_piece(done, piece)[k].len() > 0
                && comma_free(#[trigger] keep_piece(done, piece)[k]),
{
    lemma_trim_start_comma_free(piece);
    lemma_trim_end_comma_free(trim_start(piece));
}

proof fn lemma_scan_clean(s: Seq<char>)
    ensures
        comma_free(scan_list(s).1),
        forall|k: int|
            0 <= k < scan_list(s).0.len() ==> scan_list(s).0[k].len() > 0 && comma_free(
                #[trigger] scan_list(s).0[k],
            ),
    decreases s.len(),
{
    if s.len() > 0 {
        lemma_scan_clean(s.drop_last());
        let (done, open) = scan_list(s.drop_last());
        if s.last() == ',' {
            lemma_keep_piece_clean(done, open);
        } else {
            assert forall|i: int| 0 <= i < open.push(s.last()).len() implies open.push(
                s.last(),
            )[i] != ',' by {
                if i < open.len() {
                    assert(open.push(s.last())[i] == open[i]);
                }
            }
        }
    }
}

/// Each token of a comma-delimited list is non-empty and holds no comma:
/// empty segments never yield an entry.
pub proof fn lemma_list_tokens_clean(s: Seq<char>)
    ensures
        forall|k: int|
            0 <= k < list_tokens(s).len() ==> list_tokens(s)[k].len() > 0 && comma_free(
                #[trigger] list_tokens(s)[k],
            ),
{
    lemma_scan_clean(s);
    lemma_keep_piece_clean(scan_list(s).0, scan_list(s).1);
}

proof fn lemma_scan_comma_free(s: Seq<char>)
    requires
        comma_free(s),
    ensures
        scan_list(s) == (Seq::<Seq<char>>::empty(), s),
    decreases s.len(),
{
    if s.len() > 0 {
        assert(s.drop_last().len() < s.len());
        assert forall|i: int| 0 <= i < s.drop_last().len() implies s.drop_last()[i] != ',' by {
            assert(s.drop_last()[i] == s[i]);
        }
        lemma_scan_comma_free(s.drop_last());
        assert(s.last() == s[s.len() - 1]);
        assert(s.drop_last().push(s.last()) =~= s);
    }
}

/// A list with no comma has exactly one token, the trimmed string, when
/// anything is left of it after trimming.
pub proof fn lemma_single_entry(s: Seq<char>)
    requires
        comma_free(s),
        trim(s).len() > 0,
    ensures
        list_tokens(s) == seq![trim(s)],
{
    lemma_scan_comma_free(s);
    assert(list_tokens(s) =~= seq![trim(s)]);
}

proof fn lemma_scan_concat(a: Seq<char>, b: Seq<char>)
    ensures
        scan_list(a + seq![','] + b) == (list_tokens(a) + scan_list(b).0, scan_list(b).1),
    decreases b.len(),
{
    let s = a + seq![','] + b;
    if b.len() == 0 {
        assert(s =~= a.push(','));
        assert(s.drop_last() =~= a);
        assert(list_tokens(a) + Seq::<Seq<char>>::empty() =~= list_tokens(a));
    } else {
        lemma_scan_concat(a, b.drop_last());
        assert(s.drop_last() =~= a + seq![','] + b.drop_last());
        assert(s.last() == b.last());
        let (done, open) = scan_list(b.drop_last());
        if b.last() == ',' {
            assert(keep_piece(list_tokens(a) + done, open) =~= list_tokens(a) + keep_piece(
                done,
                open,
            ));
        }
    }
}

/// Splitting keeps the order of the input: the tokens of `a,b` are the
/// tokens of `a` followed by those of `b`.
pub proof fn lemma_list_concat(a: Seq<char>, b: Seq<char>)
    ensures
        list_tokens(a + seq![','] + b) == list_tokens(a) + list_tokens(b),
{
    lemma_scan_concat(a, b);
    let (done, open) = scan_list(b);
    assert(keep_piece(list_tokens(a) + done, open) =~= list_tokens(a) + keep_piece(done, open));
}

/// A segment that is blank after trimming gives no token.
pub proof fn lemma_blank_segment(s: Seq<char>)
    requires
        comma_free(s),
        trim(s).len() == 0,
    ensures
        list_tokens(s).len() == 0,
{
    lemma_scan_comma_free(s);
}

/// A list of two entries with a blank segment between them yields exactly
/// the two trimmed entries, in order.
pub proof fn lemma_blank_between(a: Seq<char>, w: Seq<char>, b: Seq<char>)
    requires
        comma_free(a),
        comma_free(w),
        comma_free(b),
        trim(a).len() > 0,
        trim(w).len() == 0,
        trim(b).len() > 0,
    ensures
        list_tokens(a + seq![','] + w + seq![','] + b) == seq![trim(a), trim(b)],
{
    lemma_list_concat(a + seq![','] + w, b);
    lemma_list_concat(a, w);
    lemma_single_entry(a);
    lemma_single_entry(b);
    lemma_blank_segment(w);
    assert(list_tokens(a) + list_tokens(w) =~= seq![trim(a)]);
    assert(seq![trim(a)] + seq![trim(b)] =~= seq![trim(a), trim(b)]);
}

/// An empty list has no tokens.
pub proof fn lemma_empty_list(s: Seq<char>)
    requires
        s.len() == 0,
    ensures
        list_tokens(s).len() == 0,
{
    assert(trim(Seq::<char>::empty()) =~= Seq::<char>::empty());
}

/// An empty To list fails the send with `NoRecipients` once every address
/// is valid; an empty Cc or Bcc list is no error and gives no entry.
pub proof fn lemma_empty_lists(
    from: Seq<char>,
    to: Seq<char>,
    subject: Seq<char>,
    body: Seq<char>,
    cc: Option<Seq<char>>,
    bcc: Option<Seq<char>>,
)
    requires
        parsed_mailbox(from).is_some(),
        cc is Some ==> cc.unwrap().len() == 0,
        bcc is Some ==> bcc.unwrap().len() == 0,
    ensures
        to.len() == 0 ==> envelope_outcome(from, to, subject, body, cc, bcc) == Err::<
            EnvelopeValue,
            MailError,
        >(MailError::NoRecipients),
        envelope_outcome(from, to, subject, body, cc, bcc) is Ok ==> envelope_outcome(
            from,
            to,
            subject,
            body,
            cc,
            bcc,
        ).unwrap().cc.len() == 0 && envelope_outcome(from, to, subject, body, cc, bcc).unwrap().bcc.len()
            == 0,
        crate::address::all_parse(list_tokens(to)) ==> envelope_outcome(
            from,
            to,
            subject,
            body,
            cc,
            bcc,
        ) != Err::<EnvelopeValue, MailError>(MailError::InvalidAddress),
{
    lemma_empty_list(Seq::<char>::empty());
    if to.len() == 0 {
        lemma_empty_list(to);
    }
}

/// A Cc or Bcc list whose every segment is blank once trimmed stands for no
/// list at all: the send has the same outcome as with the list absent, and
/// when the other fields are valid that outcome is an envelope with no entry
/// from the blank list.
pub proof fn lemma_blank_optional_list(
    from: Seq<char>,
    to: Seq<char>,
    subject: Seq<char>,
    body: Seq<char>,
    cc: Option<Seq<char>>,
    bcc: Option<Seq<char>>,
    blank: Seq<char>,
)
    requires
        list_tokens(blank).len() == 0,
    ensures
        envelope_outcome(from, to, subject, body, Some(blank), bcc) == envelope_outcome(
            from,
            to,
            subject,
            body,
            None,
            bcc,
        ),
        envelope_outcome(from, to, subject, body, cc, Some(blank)) == envelope_outcome(
            from,
            to,
            subject,
            body,
            cc,
            None,
        ),
        addresses_valid(from, to, None, bcc) && list_tokens(to).len() > 0 ==> envelope_outcome(
            from,
            to,
            subject,
            body,
            Some(blank),
            bcc,
        ) is Ok && envelope_outcome(from, to, subject, body, Some(blank), bcc).unwrap().cc.len()
            == 0,
        addresses_valid(from, to, cc, None) && list_tokens(to).len() > 0 ==> envelope_outcome(
            from,
            to,
            subject,
            body,
            cc,
            Some(blank),
        ) is Ok && envelope_outcome(from, to, subject, body, cc, Some(blank)).unwrap().bcc.len()
            == 0,
{
    assert(opt_tokens(Some(blank)) =~= opt_tokens(None));
}

/// An address string that does not parse, in the From, To, Cc or Bcc
/// position, fails the send with `InvalidAddress`, whatever the other fields
/// hold; no submission is then prepared.
pub proof fn lemma_invalid_address(
    x: Seq<char>,
    from: Seq<char>,
    to: Seq<char>,
    subject: Seq<char>,
    body: Seq<char>,
    cc: Option<Seq<char>>,
    bcc: Option<Seq<char>>,
)
    requires
        comma_free(x),
        x.len() > 0,
        trim(x) == x,
        parsed_mailbox(x) is None,
        from == x || to == x || cc == Some(x) || bcc == Some(x),
    ensures
        envelope_outcome(from, to, subject, body, cc, bcc) == Err::<EnvelopeValue, MailError>(
            MailError::InvalidAddress,
        ),
{
    lemma_single_entry(x);
    assert(list_tokens(x)[0] == x);
}

/// Bcc addresses reach the relay but never a header: an address given only
/// as Bcc is among the recipients and not among the header addresses, while
/// From, To and Cc addresses are all in the headers.
pub proof fn lemma_bcc_hidden(e: EnvelopeValue, a: Seq<char>)
    requires
        addresses(e.bcc).contains(a),
        a != address_of(e.from),
        !addresses(e.to).contains(a),
        !addresses(e.cc).contains(a),
    ensures
        !header_addresses_of(e).contains(a),
        recipients_of(e).contains(a),
        header_addresses_of(e).contains(address_of(e.from)),
        forall|k: int|
            0 <= k < e.to.len() ==> header_addresses_of(e).contains(address_of(#[trigger] e.to[k]))
                && recipients_of(e).contains(address_of(e.to[k])),
        forall|k: int|
            0 <= k < e.cc.len() ==> header_addresses_of(e).contains(address_of(#[trigger] e.cc[k]))
                && recipients_of(e).contains(address_of(e.cc[k])),
{
    let h = header_addresses_of(e);
    let r = recipients_of(e);
    let nt = e.to.len() as int;
    let nc = e.cc.len() as int;
    if h.contains(a) {
        let i = choose|i: int| 0 <= i < h.len() && h[i] == a;
        if i >= 1 && i < 1 + nt {
            assert(addresses(e.to)[i - 1] == a);
        } else if i >= 1 + nt {
            assert(addresses(e.cc)[i - 1 - nt] == a);
        }
    }
    let j = choose|j: int| 0 <= j < addresses(e.bcc).len() && addresses(e.bcc)[j] == a;
    assert(r[nt + nc + j] == a);
    assert(h[0] == address_of(e.from));
    assert forall|k: int| 0 <= k < e.to.len() implies h.contains(address_of(#[trigger] e.to[k]))
        && r.contains(address_of(e.to[k])) by {
        assert(h[1 + k] == address_of(e.to[k]));
        assert(r[k] == address_of(e.to[k]));
    }
    assert forall|k: int| 0 <= k < e.cc.len() implies h.contains(address_of(#[trigger] e.cc[k]))
        && r.contains(address_of(e.cc[k])) by {
        assert(h[1 + nt + k] == address_of(e.cc[k]));
        assert(r[nt + k] == address_of(e.cc[k]));
    }
}

} // verus!
