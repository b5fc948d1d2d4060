//! The correlation-tagged control-plane protocol.
//!
//! One request is a single line `"<msgtype> <tag>[:1:<key>] <cmdline>"` sent
//! as one datagram; the reply is a stream of datagrams, each carrying a tag,
//! a type and a payload of named fields. [`rx`] interprets such a stream for
//! one outstanding tag: datagrams with a foreign tag are discarded, `row` and
//! `event` payloads are accumulated, `end` terminates successfully, `error`
//! and unknown types abort, and an exhausted stream counts as a receive
//! timeout. The runtime layer that owns the socket decodes each datagram into
//! a [`Datagram`] value and either drives [`rx_step`] datagram by datagram or
//! hands a whole recorded stream to the composed operations.

use vstd::prelude::*;

use crate::strutil::str_eq;

verus! {

/// A payload field value: the text of a string-valued field, or an opaque
/// marker for a field of any other shape.
#[derive(Debug)]
pub enum FieldValue {
    Text(String),
    Other,
}

/// One named field of a datagram payload.
#[derive(Debug)]
pub struct Pair {
    pub key: String,
    pub value: FieldValue,
}

/// One decoded response datagram: its correlation tag, its type, and the
/// remaining fields as the payload.
#[derive(Debug)]
pub struct Datagram {
    pub tag: String,
    pub typ: String,
    pub payload: Vec<Pair>,
}

/// One accumulated data record of a response.
#[derive(Debug)]
pub struct Row {
    pub payload: Vec<Pair>,
}

/// An error of the receive loop.
#[derive(Debug)]
pub enum RxError {
    /// The remote side reported an error; the payload's `error` text.
    Remote(String),
    /// A datagram carried a type outside the protocol.
    UnknownType(String),
    /// The stream ended before a terminal datagram arrived.
    Timeout,
}

/// The descriptive string for a receive-loop error.
pub open spec fn spec_rx_message(e: &RxError) -> Seq<char> {
    match e {
        RxError::Remote(m) => m@,
        RxError::UnknownType(t) => "Unknown data type "@ + t@,
        RxError::Timeout => "receive timed out"@,
    }
}

impl RxError {
    /// Flattens the error to the descriptive string shown at the boundary.
    pub fn message(&self) -> (r: String)
        ensures
            r@ == spec_rx_message(self),
    {
        match self {
            RxError::Remote(m) => m.clone(),
            RxError::UnknownType(t) => {
                let mut s = String::from_str("Unknown data type ");
                s.append(t.as_str());
                s
            },
            RxError::Timeout => String::from_str("receive timed out"),
        }
    }
}

/// The first value listed under `key`, if any.
pub open spec fn lookup(pairs: Seq<Pair>, key: Seq<char>) -> Option<FieldValue>
    decreases pairs.len(),
{
    if pairs.len() == 0 {
        None
    } else if pairs[0].key@ == key {
        Some(pairs[0].value)
    } else {
        lookup(pairs.drop_first(), key)
    }
}

/// Finds the first field named `key`.
pub fn get_field<'a>(pairs: &'a Vec<Pair>, key: &str) -> (r: Option<&'a FieldValue>)
    ensures
        match r {
            Some(v) => lookup(pairs@, key@) == Some(*v),
            None => lookup(pairs@, key@) is None,
        },
{
    let mut i: usize = 0;
    proof {
        assert(pairs@.skip(0) =~= pairs@);
    }
    while i < pairs.len()
        invariant
            i <= pairs@.len(),
            lookup(pairs@, key@) == lookup(pairs@.skip(i as int), key@),
        decreases pairs@.len() - i,
    {
        proof {
            assert(pairs@.skip(i as int)[0] == pairs@[i as int]);
            assert(pairs@.skip(i as int).drop_first() =~= pairs@.skip(i as int + 1));
        }
        if str_eq(pairs[i].key.as_str(), key) {
            return Some(&pairs[i].value);
        }
        i = i + 1;
    }
    proof {
        assert(pairs@.skip(i as int).len() == 0);
    }
    None
}

/// The text that an `error` datagram reports, or the empty sequence when the
/// `error` field is absent or not a string.
pub open spec fn error_field_text(payload: Seq<Pair>) -> Seq<char> {
    match lookup(payload, "error"@) {
        Some(FieldValue::Text(t)) => t@,
        _ => Seq::empty(),
    }
}

/// The abstract outcome of interpreting a response stream.
pub enum RxOutcome {
    /// A terminal `end` arrived; the rows accumulated before it.
    Rows(Seq<Row>),
    /// A matching `error` datagram arrived; its reported text.
    RemoteError(Seq<char>),
    /// A matching datagram carried this unknown type.
    BadType(Seq<char>),
    /// The stream was exhausted with the request still outstanding.
    TimedOut,
}

/// Interprets the datagrams `ds` for the outstanding tag `tag`, with `acc`
/// already accumulated.
pub open spec fn rx_spec(tag: Seq<char>, ds: Seq<Datagram>, acc: Seq<Row>) -> RxOutcome
    decreases ds.len(),
{
    if ds.len() == 0 {
        RxOutcome::TimedOut
    } else {
        let d = ds[0];
        let rest = ds.drop_first();
        if d.tag@ != tag {
            rx_spec(tag, rest, acc)
        } else if d.typ@ == "error"@ {
            RxOutcome::RemoteError(error_field_text(d.payload@))
        } else if d.typ@ == "end"@ {
            RxOutcome::Rows(acc)
        } else if d.typ@ == "row"@ || d.typ@ == "event"@ {
            rx_spec(tag, rest, acc.push(Row { payload: d.payload }))
        } else if d.typ@ == "begin"@ || d.typ@ == "subscribed"@ || d.typ@ == "unsubscribed"@ {
            rx_spec(tag, rest, acc)
        } else {
            RxOutcome::BadType(d.typ@)
        }
    }
}

/// Whether the executable result `r` reports exactly the outcome that
/// [`rx_spec`] assigns to the stream.
pub open spec fn rx_matches(tag: Seq<char>, ds: Seq<Datagram>, r: Result<Vec<Row>, RxError>) -> bool {
    match r {
        Ok(rows) => rx_spec(tag, ds, Seq::empty()) == RxOutcome::Rows(rows@),
        Err(RxError::Remote(m)) => rx_spec(tag, ds, Seq::empty()) == RxOutcome::RemoteError(m@),
        Err(RxError::UnknownType(t)) => rx_spec(tag, ds, Seq::empty()) == RxOutcome::BadType(t@),
        Err(RxError::Timeout) => rx_spec(tag, ds, Seq::empty()) == RxOutcome::TimedOut,
    }
}

/// What one datagram asks the receive loop to do.
pub enum RxStep {
    /// Foreign tag: the datagram is discarded, the loop keeps waiting.
    Stale,
    /// An acknowledgement type: nothing is accumulated, the loop continues.
    Ack,
    /// A data record was appended to the accumulator; the loop continues.
    Collect,
    /// The terminal `end`: the accumulator holds the call's result.
    Finish,
    /// The call fails with this error.
    Abort(RxError),
}

/// Decides what one received datagram means for the request outstanding under
/// `tag`, appending to `acc` when the datagram carries data.
pub fn rx_step(tag: &str, d: Datagram, acc: &mut Vec<Row>) -> (s: RxStep)
    ensures
        d.tag@ != tag@ ==> s is Stale && final(acc)@ == old(acc)@,
        d.tag@ == tag@ && d.typ@ == "error"@ ==> (match s {
            RxStep::Abort(RxError::Remote(m)) => m@ == error_field_text(d.payload@),
            _ => false,
        }) && final(acc)@ == old(acc)@,
        d.tag@ == tag@ && d.typ@ != "error"@ && d.typ@ == "end"@ ==> s is Finish && final(acc)@
            == old(acc)@,
        d.tag@ == tag@ && d.typ@ != "error"@ && d.typ@ != "end"@ && (d.typ@ == "row"@ || d.typ@
            == "event"@) ==> s is Collect && final(acc)@ == old(acc)@.push(
            Row { payload: d.payload },
        ),
        d.tag@ == tag@ && d.typ@ != "error"@ && d.typ@ != "end"@ && !(d.typ@ == "row"@ || d.typ@
            == "event"@) && (d.typ@ == "begin"@ || d.typ@ == "subscribed"@ || d.typ@
            == "unsubscribed"@) ==> s is Ack && final(acc)@ == old(acc)@,
        d.tag@ == tag@ && d.typ@ != "error"@ && d.typ@ != "end"@ && !(d.typ@ == "row"@ || d.typ@
            == "event"@) && !(d.typ@ == "begin"@ || d.typ@ == "subscribed"@ || d.typ@
            == "unsubscribed"@) ==> s == RxStep::Abort(RxError::UnknownType(d.typ))
            && final(acc)@ == old(acc)@,
{
    if !str_eq(d.tag.as_str(), tag) {
        RxStep::Stale
    } else if str_eq(d.typ.as_str(), "error") {
        let m = match get_field(&d.payload, "error") {
            Some(v) => match v {
                FieldValue::Text(t) => t.clone(),
                FieldValue::Other => String::new(),
            },
            None => String::new(),
        };
        RxStep::Abort(RxError::Remote(m))
    } else if str_eq(d.typ.as_str(), "end") {
        RxStep::Finish
    } else if str_eq(d.typ.as_str(), "row") || str_eq(d.typ.as_str(), "event") {
        acc.push(Row { payload: d.payload });
        RxStep::Collect
    } else if str_eq(d.typ.as_str(), "begin") || str_eq(d.typ.as_str(), "subscribed") || str_eq(
        d.typ.as_str(),
        "unsubscribed",
    ) {
        RxStep::Ack
    } else {
        RxStep::Abort(RxError::UnknownType(d.typ))
    }
}

/// Interprets a whole response stream for the outstanding tag `tag`.
///
/// Datagrams tagged for another request are silently discarded; `row` and
/// `event` payloads accumulate in order; `begin`, `subscribed` and
/// `unsubscribed` are acknowledged without data; `end` returns the rows
/// accumulated so far; `error` aborts with the reported text; any other type
/// aborts as a protocol violation; an exhausted stream is a timeout.
pub fn rx(tag: &str, datagrams: Vec<Datagram>) -> (r: Result<Vec<Row>, RxError>)
    ensures
        rx_matches(tag@, datagrams@, r),
{
    let mut ds = datagrams;
    let mut acc: Vec<Row> = Vec::new();
    proof {
        assert(acc@ =~= Seq::<Row>::empty());
    }
    while ds.len() > 0
        invariant
            rx_spec(tag@, datagrams@, Seq::empty()) == rx_spec(tag@, ds@, acc@),
        decreases ds@.len(),
    {
        let ghost pre = ds@;
        let ghost acc_pre = acc@;
        let d = ds.remove(0);
        proof {
            assert(ds@ =~= pre.drop_first());
        }
        match rx_step(tag, d, &mut acc) {
            RxStep::Stale => (),
            RxStep::Ack => (),
            RxStep::Collect => (),
            RxStep::Finish => {
                return Ok(acc);
            },
            RxStep::Abort(e) => {
                return Err(e);
            },
        }
    }
    Err(RxError::Timeout)
}

/// The round trip of a well-behaved responder: a stream of data datagrams
/// (`row` or `event`), all tagged for the outstanding request and terminated
/// by a matching `end`, yields exactly their payloads, in order, after
/// whatever was already accumulated.
pub proof fn lemma_data_stream_round_trip(
    tag: Seq<char>,
    ds: Seq<Datagram>,
    fin: Datagram,
    acc: Seq<Row>,
)
    requires
        forall|i: int|
            0 <= i < ds.len() ==> (#[trigger] ds[i].tag@) == tag && (ds[i].typ@ == "row"@
                || ds[i].typ@ == "event"@),
        fin.tag@ == tag,
        fin.typ@ == "end"@,
    ensures
        rx_spec(tag, ds + seq![fin], acc) == RxOutcome::Rows(
            acc + ds.map_values(|d: Datagram| Row { payload: d.payload }),
        ),
    decreases ds.len(),
{
    reveal_strlit("row");
    reveal_strlit("event");
    reveal_strlit("error");
    reveal_strlit("end");
    let rows = ds.map_values(|d: Datagram| Row { payload: d.payload });
    if ds.len() == 0 {
        assert(ds + seq![fin] =~= seq![fin]);
        assert((seq![fin])[0] == fin);
        assert(acc + rows =~= acc);
    } else {
        let d = ds[0];
        assert((ds + seq![fin])[0] == d);
        assert("row"@.len() == 3 && "row"@[0] == 'r');
        assert("event"@.len() == 5 && "event"@[1] == 'v');
        assert("error"@.len() == 5 && "error"@[1] == 'r');
        assert("end"@.len() == 3 && "end"@[0] == 'e');
        assert(d.typ@ != "error"@ && d.typ@ != "end"@);
        assert((ds + seq![fin]).drop_first() =~= ds.drop_first() + seq![fin]);
        lemma_data_stream_round_trip(tag, ds.drop_first(), fin, acc.push(Row { payload: d.payload }));
        let rest_rows = ds.drop_first().map_values(|x: Datagram| Row { payload: x.payload });
        assert(acc.push(Row { payload: d.payload }) + rest_rows =~= acc + rows);
    }
}

/// A datagram whose tag is not the outstanding one never changes what a
/// receive loop returns: the stream with the stale datagram spliced in is
/// interpreted exactly as the stream without it.
pub proof fn lemma_stale_datagram_ignored(
    tag: Seq<char>,
    ds1: Seq<Datagram>,
    d: Datagram,
    ds2: Seq<Datagram>,
    acc: Seq<Row>,
)
    requires
        d.tag@ != tag,
    ensures
        rx_spec(tag, ds1 + seq![d] + ds2, acc) == rx_spec(tag, ds1 + ds2, acc),
    decreases ds1.len(),
{
    if ds1.len() == 0 {
        assert(ds1 + seq![d] + ds2 =~= seq![d] + ds2);
        assert((seq![d] + ds2)[0] == d);
        assert((seq![d] + ds2).drop_first() =~= ds2);
        assert(ds1 + ds2 =~= ds2);
    } else {
        let h = ds1[0];
        let spliced = ds1 + seq![d] + ds2;
        let plain = ds1 + ds2;
        assert(spliced[0] == h);
        assert(plain[0] == h);
        assert(spliced.drop_first() =~= ds1.drop_first() + seq![d] + ds2);
        assert(plain.drop_first() =~= ds1.drop_first() + ds2);
        if h.tag@ != tag {
            lemma_stale_datagram_ignored(tag, ds1.drop_first(), d, ds2, acc);
        } else if h.typ@ == "error"@ || h.typ@ == "end"@ {
        } else if h.typ@ == "row"@ || h.typ@ == "event"@ {
            lemma_stale_datagram_ignored(
                tag,
                ds1.drop_first(),
                d,
                ds2,
                acc.push(Row { payload: h.payload }),
            );
        } else if h.typ@ == "begin"@ || h.typ@ == "subscribed"@ || h.typ@ == "unsubscribed"@ {
            lemma_stale_datagram_ignored(tag, ds1.drop_first(), d, ds2, acc);
        } else {
        }
    }
}

} // verus!
