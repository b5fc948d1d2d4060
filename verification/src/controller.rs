//! The stateful control-plane client for the network-edge worker.
//!
//! A [`Controller`] owns the request side of the protocol: a monotonically
//! increasing tag counter that wraps at 1000 and an optional shared secret
//! folded into every request line. The composed query operations interpret a
//! recorded response stream against the tag that their own request consumed,
//! which is exactly the shape a scripted (or mocked) responder produces; a
//! live driver sends the line from [`Controller::cmdstr`] and feeds received
//! datagrams to [`crate::protocol::rx_step`] one by one instead.

use vstd::prelude::*;

use crate::errors::ProgramError;
use crate::numfmt::{spec_decimal, u32_to_decimal};
use crate::protocol::{
    lookup, rx, rx_matches, rx_spec, Datagram, FieldValue, Pair, Row, RxError, RxOutcome,
};

verus! {

/// The wrap bound of the tag counter.
pub const TAG_MODULUS: u32 = 1000;

/// A structural record of one group member, as reported over the control
/// plane or by the membership directory.
#[derive(Debug)]
pub struct Member {
    pub address: String,
    pub name: String,
    pub mode: String,
}

/// The abstract value of a [`Member`]: its three fields as character
/// sequences.
pub struct MemberV {
    pub address: Seq<char>,
    pub name: Seq<char>,
    pub mode: Seq<char>,
}

impl View for Member {
    type V = MemberV;

    open spec fn view(&self) -> MemberV {
        MemberV { address: self.address@, name: self.name@, mode: self.mode@ }
    }
}

impl PartialEq for Member {
    fn eq(&self, other: &Self) -> (r: bool) {
        self.address == other.address && self.mode == other.mode && self.name == other.name
    }
}

impl vstd::std_specs::cmp::PartialEqSpecImpl for Member {
    open spec fn obeys_eq_spec() -> bool {
        true
    }

    open spec fn eq_spec(&self, other: &Member) -> bool {
        self.address@ == other.address@ && self.mode@ == other.mode@ && self.name@ == other.name@
    }
}

/// The option list of a request line: the tag, followed by `:1:<key>` when a
/// shared secret is configured.
pub open spec fn spec_options(tag: Seq<char>, key: Option<String>) -> Seq<char> {
    match key {
        None => tag,
        Some(k) => tag + ":1:"@ + k@,
    }
}

/// The full request line `"<msgtype> <options> <cmdline>"`.
pub open spec fn spec_request_line(
    msgtype: Seq<char>,
    options: Seq<char>,
    cmdline: Seq<char>,
) -> Seq<char> {
    msgtype + " "@ + options + " "@ + cmdline
}

/// The first string value stored under `key` across `rows`: `Ok(Some(text))`
/// from the first row that has the field at all, `Err` when that first
/// occurrence is not a string, `Ok(None)` when no row has the field.
pub open spec fn spec_first_text(rows: Seq<Row>, key: Seq<char>) -> Result<
    Option<Seq<char>>,
    ProgramError,
>
    decreases rows.len(),
{
    if rows.len() == 0 {
        Ok(None)
    } else {
        match lookup(rows[0].payload@, key) {
            None => spec_first_text(rows.drop_first(), key),
            Some(FieldValue::Text(t)) => Ok(Some(t@)),
            Some(FieldValue::Other) => Err(ProgramError::TransferError),
        }
    }
}

/// The text under `key`, or `dflt` when the field is absent, empty or not a
/// string.
pub open spec fn spec_field_or(payload: Seq<Pair>, key: Seq<char>, dflt: Seq<char>) -> Seq<char> {
    match lookup(payload, key) {
        Some(FieldValue::Text(t)) => if t@.len() > 0 {
            t@
        } else {
            dflt
        },
        _ => dflt,
    }
}

/// Extracts the first string value stored under `key` across `rows`.
pub fn first_field_text(rows: &Vec<Row>, key: &str) -> (r: Result<Option<String>, ProgramError>)
    ensures
        match spec_first_text(rows@, key@) {
            Ok(Some(v)) => r is Ok && r->Ok_0 is Some && r->Ok_0->0@ == v,
            Ok(None) => r == Ok::<Option<String>, ProgramError>(None),
            Err(e) => r == Err::<Option<String>, ProgramError>(e),
        },
{
    let mut i: usize = 0;
    proof {
        assert(rows@.skip(0) =~= rows@);
    }
    while i < rows.len()
        invariant
            i <= rows@.len(),
            spec_first_text(rows@, key@) == spec_first_text(rows@.skip(i as int), key@),
        decreases rows@.len() - i,
    {
        proof {
            assert(rows@.skip(i as int)[0] == rows@[i as int]);
            assert(rows@.skip(i as int).drop_first() =~= rows@.skip(i as int + 1));
        }
        match crate::protocol::get_field(&rows[i].payload, key) {
            Some(v) => {
                match v {
                    FieldValue::Text(t) => {
                        return Ok(Some(t.clone()));
                    },
                    FieldValue::Other => {
                        return Err(ProgramError::TransferError);
                    },
                }
            },
            None => (),
        }
        i = i + 1;
    }
    proof {
        assert(rows@.skip(i as int).len() == 0);
    }
    Ok(None)
}

/// Reads the text under `key`, substituting `dflt` when the field is absent,
/// empty or not a string.
pub fn field_or(payload: &Vec<Pair>, key: &str, dflt: &str) -> (s: String)
    ensures
        s@ == spec_field_or(payload@, key@, dflt@),
{
    match crate::protocol::get_field(payload, key) {
        Some(v) => match v {
            FieldValue::Text(t) => {
                if t.as_str().unicode_len() > 0 {
                    t.clone()
                } else {
                    String::from_str(dflt)
                }
            },
            FieldValue::Other => String::from_str(dflt),
        },
        None => String::from_str(dflt),
    }
}

/// Maps each response row to a [`Member`], substituting `"None"` for a
/// missing, empty or non-string address or display name and `"Unknown"` for a
/// missing, empty or non-string connectivity mode.
pub fn members_of_rows(rows: &Vec<Row>) -> (ms: Vec<Member>)
    ensures
        ms@.len() == rows@.len(),
        forall|i: int|
            0 <= i < rows@.len() ==> #[trigger] ms@[i]@ == (MemberV {
                address: spec_field_or(rows@[i].payload@, "ip4addr"@, "None"@),
                name: spec_field_or(rows@[i].payload@, "desc"@, "None"@),
                mode: spec_field_or(rows@[i].payload@, "mode"@, "Unknown"@),
            }),
{
    let mut ms: Vec<Member> = Vec::new();
    let mut i: usize = 0;
    while i < rows.len()
        invariant
            i <= rows@.len(),
            ms@.len() == i,
            forall|j: int|
                0 <= j < i ==> #[trigger] ms@[j]@ == (MemberV {
                    address: spec_field_or(rows@[j].payload@, "ip4addr"@, "None"@),
                    name: spec_field_or(rows@[j].payload@, "desc"@, "None"@),
                    mode: spec_field_or(rows@[j].payload@, "mode"@, "Unknown"@),
                }),
        decreases rows@.len() - i,
    {
        let address = field_or(&rows[i].payload, "ip4addr", "None");
        let name = field_or(&rows[i].payload, "desc", "None");
        let mode = field_or(&rows[i].payload, "mode", "Unknown");
        ms.push(Member { address, name, mode });
        i = i + 1;
    }
    ms
}

/// How many liveness probes a caller makes before giving the worker up.
pub const LIVENESS_ATTEMPTS: usize = 3;

/// The bounded-retry liveness policy: the worker counts as alive exactly when
/// one of the first three test attempts succeeded. Callers space the attempts
/// rather than cancelling a hung one.
pub fn liveness(attempts: &Vec<bool>) -> (r: bool)
    ensures
        r == exists|i: int|
            0 <= i < attempts@.len() && i < LIVENESS_ATTEMPTS && attempts@[i],
{
    let mut i: usize = 0;
    while i < attempts.len() && i < LIVENESS_ATTEMPTS
        invariant
            i <= attempts@.len(),
            i <= LIVENESS_ATTEMPTS,
            forall|j: int| 0 <= j < i ==> !attempts@[j],
        decreases attempts@.len() - i,
    {
        if attempts[i] {
            return true;
        }
        i = i + 1;
    }
    false
}

/// Whether `r` is exactly what an `info` query issued by the client `c`
/// returns for the response stream `ds`: the first reported `ip4addr` text,
/// an error for a non-string one, and `"0.0.0.0"` when no row carries the
/// field or the call itself failed.
pub open spec fn vip_call_matches(
    c: Controller,
    ds: Seq<Datagram>,
    r: Result<String, ProgramError>,
) -> bool {
    match rx_spec(spec_decimal(c.tag as nat), ds, Seq::empty()) {
        RxOutcome::Rows(rows) => match spec_first_text(rows, "ip4addr"@) {
            Ok(Some(v)) => r is Ok && r->Ok_0@ == v,
            Ok(None) => r is Ok && r->Ok_0@ == "0.0.0.0"@,
            Err(e) => r == Err::<String, ProgramError>(e),
        },
        _ => r is Ok && r->Ok_0@ == "0.0.0.0"@,
    }
}

/// The request side of one control-plane session: loopback address, control
/// port, wrapping tag counter and optional shared secret.
pub struct Controller {
    pub address: String,
    pub port: u16,
    pub tag: u32,
    pub key: Option<String>,
}

impl Controller {
    /// The tag counter stays below its wrap bound.
    pub open spec fn wf(&self) -> bool {
        self.tag < TAG_MODULUS
    }

    /// `self` after one request consumed a tag: the counter advanced and
    /// wrapped, everything else untouched.
    pub open spec fn spec_advance_tag(self) -> Controller {
        Controller { tag: ((self.tag + 1) % (TAG_MODULUS as int)) as u32, ..self }
    }

    /// A fresh client for the worker's control port on the loopback address.
    pub fn new(port: u16) -> (c: Controller)
        ensures
            c.wf(),
            c.tag == 0,
            c.port == port,
            c.key is None,
            c.address@ == "127.0.0.1"@,
    {
        Controller { address: String::from_str("127.0.0.1"), port, tag: 0, key: None }
    }

    /// Renders the current tag and advances the counter, wrapping at the
    /// modulus.
    pub fn next_tag(&mut self) -> (t: String)
        requires
            old(self).wf(),
        ensures
            final(self).wf(),
            t@ == spec_decimal(old(self).tag as nat),
            *final(self) == old(self).spec_advance_tag(),
    {
        let t = u32_to_decimal(self.tag);
        self.tag = (self.tag + 1) % TAG_MODULUS;
        t
    }

    /// Builds the request line for one call, consuming a fresh tag. Returns
    /// the tag (to correlate the response datagrams) and the line to send.
    pub fn cmdstr(&mut self, msgtype: &str, cmdline: &str) -> (r: (String, String))
        requires
            old(self).wf(),
        ensures
            final(self).wf(),
            r.0@ == spec_decimal(old(self).tag as nat),
            r.1@ == spec_request_line(
                msgtype@,
                spec_options(spec_decimal(old(self).tag as nat), old(self).key),
                cmdline@,
            ),
            *final(self) == old(self).spec_advance_tag(),
    {
        let tagstr = self.next_tag();
        let mut line = String::from_str(msgtype);
        line.append(" ");
        line.append(tagstr.as_str());
        match &self.key {
            Some(k) => {
                line.append(":1:");
                line.append(k.as_str());
            },
            None => (),
        }
        line.append(" ");
        line.append(cmdline);
        proof {
            assert(line@ =~= spec_request_line(
                msgtype@,
                spec_options(spec_decimal(old(self).tag as nat), old(self).key),
                cmdline@,
            ));
        }
        (tagstr, line)
    }

    /// Issues `info` as a read call against the given response stream and
    /// extracts the virtual address: the first reported `ip4addr`, or
    /// `"0.0.0.0"` when the worker has not joined a network yet or the call
    /// itself failed.
    pub fn get_vip(&mut self, datagrams: Vec<Datagram>) -> (r: Result<String, ProgramError>)
        requires
            old(self).wf(),
        ensures
            final(self).wf(),
            *final(self) == old(self).spec_advance_tag(),
            vip_call_matches(*old(self), datagrams@, r),
    {
        let (tagstr, _line) = self.cmdstr("r", "info");
        match rx(tagstr.as_str(), datagrams) {
            Err(_) => Ok(String::from_str("0.0.0.0")),
            Ok(rows) => {
                match first_field_text(&rows, "ip4addr") {
                    Ok(Some(v)) => Ok(v),
                    Ok(None) => Ok(String::from_str("0.0.0.0")),
                    Err(e) => Err(e),
                }
            },
        }
    }

    /// Issues `stop` as a write call: asks the worker to shut itself down.
    /// Best-effort; the caller logs a failure instead of propagating it.
    pub fn close(&mut self, datagrams: Vec<Datagram>) -> (r: Result<Vec<Row>, RxError>)
        requires
            old(self).wf(),
        ensures
            final(self).wf(),
            *final(self) == old(self).spec_advance_tag(),
            rx_matches(spec_decimal(old(self).tag as nat), datagrams@, r),
    {
        let (tagstr, _line) = self.cmdstr("w", "stop");
        rx(tagstr.as_str(), datagrams)
    }

    /// Issues `help` as a read call; liveness is reduced to whether any
    /// response to the request arrived before the timeout. An error payload
    /// or even a protocol violation is an arrived response: the worker is
    /// alive. Only a stream that runs out with the request still outstanding
    /// counts as dead.
    pub fn test(&mut self, datagrams: Vec<Datagram>) -> (r: bool)
        requires
            old(self).wf(),
        ensures
            final(self).wf(),
            *final(self) == old(self).spec_advance_tag(),
            r == !(rx_spec(spec_decimal(old(self).tag as nat), datagrams@, Seq::empty())
                is TimedOut),
    {
        let (tagstr, _line) = self.cmdstr("r", "help");
        match rx(tagstr.as_str(), datagrams) {
            Ok(_) => true,
            Err(RxError::Timeout) => false,
            Err(_) => true,
        }
    }

    /// Issues `communities` as a read call and returns the first community
    /// found, or `"None"` when the worker reports none or the call failed.
    pub fn current_group(&mut self, datagrams: Vec<Datagram>) -> (r: Result<String, ProgramError>)
        requires
            old(self).wf(),
        ensures
            final(self).wf(),
            *final(self) == old(self).spec_advance_tag(),
            ({
                let out = rx_spec(spec_decimal(old(self).tag as nat), datagrams@, Seq::empty());
                match out {
                    RxOutcome::Rows(rows) => match spec_first_text(rows, "community"@) {
                        Ok(Some(v)) => r is Ok && r->Ok_0@ == v,
                        Ok(None) => r is Ok && r->Ok_0@ == "None"@,
                        Err(e) => r == Err::<String, ProgramError>(e),
                    },
                    _ => r is Ok && r->Ok_0@ == "None"@,
                }
            }),
    {
        let (tagstr, _line) = self.cmdstr("r", "communities");
        match rx(tagstr.as_str(), datagrams) {
            Err(_) => Ok(String::from_str("None")),
            Ok(rows) => {
                match first_field_text(&rows, "community") {
                    Ok(Some(v)) => Ok(v),
                    Ok(None) => Ok(String::from_str("None")),
                    Err(e) => Err(e),
                }
            },
        }
    }

    /// Issues `edges` as a read call and maps each reported row to a
    /// [`Member`] with the documented defaults; a failed call yields an empty
    /// list.
    pub fn edges(&mut self, datagrams: Vec<Datagram>) -> (ms: Vec<Member>)
        requires
            old(self).wf(),
        ensures
            final(self).wf(),
            *final(self) == old(self).spec_advance_tag(),
            ({
                let out = rx_spec(spec_decimal(old(self).tag as nat), datagrams@, Seq::empty());
                match out {
                    RxOutcome::Rows(rows) => ms@.len() == rows.len() && forall|i: int|
                        0 <= i < rows.len() ==> #[trigger] ms@[i]@ == MemberV {
                            address: spec_field_or(rows[i].payload@, "ip4addr"@, "None"@),
                            name: spec_field_or(rows[i].payload@, "desc"@, "None"@),
                            mode: spec_field_or(rows[i].payload@, "mode"@, "Unknown"@),
                        },
                    _ => ms@.len() == 0,
                }
            }),
    {
        let (tagstr, _line) = self.cmdstr("r", "edges");
        match rx(tagstr.as_str(), datagrams) {
            Err(_) => Vec::new(),
            Ok(rows) => members_of_rows(&rows),
        }
    }
}

} // verus!
