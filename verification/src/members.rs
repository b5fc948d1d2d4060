//! Membership reconciliation.
//!
//! The membership directory is authoritative for who belongs to the group and
//! for display names; the control plane is authoritative for connectivity
//! mode. Directory records arrive as rows of named fields (the embedding
//! application turns the directory's JSON reply into plain [`Row`] values);
//! every record whose address equals the local virtual address is excluded,
//! the rest default their mode to `"None"`, and each reported edge overwrites
//! the mode of the first member carrying its address.

use vstd::prelude::*;

use crate::controller::{Member, MemberV};
use crate::errors::ProgramError;
use crate::protocol::{lookup, FieldValue, Pair, Row};
use crate::strutil::{prefix_before_slash, split_prefix, str_eq};

verus! {

/// The display name of a directory record: its `desc` text, or `"Default"`
/// when the field is absent or not a string.
pub open spec fn spec_desc(payload: Seq<Pair>) -> Seq<char> {
    match lookup(payload, "desc"@) {
        Some(FieldValue::Text(t)) => t@,
        _ => "Default"@,
    }
}

/// The members that the directory rows describe, excluding the local address
/// `me`: each row must carry a string `ip4addr` (else the whole conversion
/// fails); a row whose address — stripped of any `/`-suffix — equals `me` is
/// skipped; every other row becomes a member with mode `"None"`.
pub open spec fn spec_dir_members(rows: Seq<Row>, me: Seq<char>) -> Result<
    Seq<MemberV>,
    ProgramError,
>
    decreases rows.len(),
{
    if rows.len() == 0 {
        Ok(Seq::empty())
    } else {
        match lookup(rows[0].payload@, "ip4addr"@) {
            Some(FieldValue::Text(ip)) => {
                let rest = spec_dir_members(rows.drop_first(), me);
                if prefix_before_slash(ip@) == me {
                    rest
                } else {
                    match rest {
                        Ok(tail) => Ok(
                            seq![
                                MemberV { address: ip@, name: spec_desc(rows[0].payload@), mode: "None"@ },
                            ] + tail,
                        ),
                        Err(e) => Err(e),
                    }
                }
            },
            _ => Err(ProgramError::TransferError),
        }
    }
}

/// `base` with the mode of its first member of address `addr` replaced by
/// `mode`; unchanged when no member carries the address.
pub open spec fn spec_update_first(
    base: Seq<MemberV>,
    addr: Seq<char>,
    mode: Seq<char>,
) -> Seq<MemberV>
    decreases base.len(),
{
    if base.len() == 0 {
        base
    } else if base[0].address == addr {
        seq![MemberV { mode, ..base[0] }] + base.drop_first()
    } else {
        seq![base[0]] + spec_update_first(base.drop_first(), addr, mode)
    }
}

/// `base` after every edge, in order, overwrote the mode of the first member
/// carrying its address.
pub open spec fn spec_merge(base: Seq<MemberV>, edges: Seq<MemberV>) -> Seq<MemberV>
    decreases edges.len(),
{
    if edges.len() == 0 {
        base
    } else {
        spec_merge(spec_update_first(base, edges[0].address, edges[0].mode), edges.drop_first())
    }
}

/// The view of a member list.
pub open spec fn member_views(ms: Seq<Member>) -> Seq<MemberV> {
    ms.map_values(|m: Member| m@)
}

fn desc_or_default(payload: &Vec<Pair>) -> (s: String)
    ensures
        s@ == spec_desc(payload@),
{
    match crate::protocol::get_field(payload, "desc") {
        Some(v) => match v {
            FieldValue::Text(t) => t.clone(),
            FieldValue::Other => String::from_str("Default"),
        },
        None => String::from_str("Default"),
    }
}

/// Converts directory rows to members, excluding the local address `me`.
pub fn members_from_directory(rows: &Vec<Row>, me: &str) -> (r: Result<Vec<Member>, ProgramError>)
    ensures
        match spec_dir_members(rows@, me@) {
            Ok(base) => r is Ok && member_views(r->Ok_0@) == base,
            Err(e) => r == Err::<Vec<Member>, ProgramError>(e),
        },
{
    let mut out: Vec<Member> = Vec::new();
    let mut i: usize = 0;
    proof {
        assert(rows@.skip(0) =~= rows@);
        assert(member_views(out@) =~= Seq::<MemberV>::empty());
    }
    while i < rows.len()
        invariant
            i <= rows@.len(),
            forall|tail: Seq<MemberV>|
                spec_dir_members(rows@.skip(i as int), me@) == Ok::<Seq<MemberV>, ProgramError>(
                    tail,
                ) ==> spec_dir_members(rows@, me@) == Ok::<Seq<MemberV>, ProgramError>(
                    member_views(out@) + tail,
                ),
            forall|e: ProgramError|
                spec_dir_members(rows@.skip(i as int), me@) == Err::<Seq<MemberV>, ProgramError>(
                    e,
                ) ==> spec_dir_members(rows@, me@) == Err::<Seq<MemberV>, ProgramError>(e),
        decreases rows@.len() - i,
    {
        proof {
            assert(rows@.skip(i as int)[0] == rows@[i as int]);
            assert(rows@.skip(i as int).drop_first() =~= rows@.skip(i as int + 1));
        }
        let ghost out_pre = out@;
        let ip = match crate::protocol::get_field(&rows[i].payload, "ip4addr") {
            Some(v) => match v {
                FieldValue::Text(t) => t.clone(),
                FieldValue::Other => {
                    return Err(ProgramError::TransferError);
                },
            },
            None => {
                return Err(ProgramError::TransferError);
            },
        };
        let excluded = str_eq(split_prefix(ip.as_str()), me);
        if !excluded {
            let name = desc_or_default(&rows[i].payload);
            out.push(Member { address: ip, name, mode: String::from_str("None") });
            proof {
                assert(member_views(out@) =~= member_views(out_pre) + seq![out@[out_pre.len() as int]@]);
                assert forall|tail: Seq<MemberV>|
                    spec_dir_members(rows@.skip(i as int + 1), me@) == Ok::<
                        Seq<MemberV>,
                        ProgramError,
                    >(tail) implies spec_dir_members(rows@, me@) == Ok::<
                    Seq<MemberV>,
                    ProgramError,
                >(member_views(out@) + tail) by {
                    assert(member_views(out_pre) + (seq![out@[out_pre.len() as int]@] + tail)
                        =~= member_views(out@) + tail);
                }
            }
        }
        i = i + 1;
    }
    proof {
        assert(rows@.skip(i as int).len() == 0);
        assert(member_views(out@) + Seq::<MemberV>::empty() =~= member_views(out@));
    }
    Ok(out)
}

proof fn lemma_update_first_at(base: Seq<MemberV>, addr: Seq<char>, mode: Seq<char>, k: int)
    requires
        0 <= k <= base.len(),
        forall|l: int| 0 <= l < k ==> base[l].address != addr,
        k == base.len() || base[k].address == addr,
    ensures
        spec_update_first(base, addr, mode) == (if k == base.len() {
            base
        } else {
            base.update(k, MemberV { mode, ..base[k] })
        }),
    decreases k,
{
    if base.len() == 0 {
    } else if k == 0 {
        assert(seq![MemberV { mode, ..base[0] }] + base.drop_first() =~= base.update(
            0,
            MemberV { mode, ..base[0] },
        ));
    } else {
        lemma_update_first_at(base.drop_first(), addr, mode, k - 1);
        if k == base.len() {
            assert(seq![base[0]] + base.drop_first() =~= base);
        } else {
            assert(seq![base[0]] + base.drop_first().update(
                k - 1,
                MemberV { mode, ..base.drop_first()[k - 1] },
            ) =~= base.update(k, MemberV { mode, ..base[k] }));
        }
    }
}

/// Overwrites, for every edge in order, the mode of the first member that
/// carries the edge's address. The directory stays authoritative for
/// membership and display names; the control plane for connectivity mode.
pub fn merge_modes(members: Vec<Member>, edges: &Vec<Member>) -> (r: Vec<Member>)
    ensures
        member_views(r@) == spec_merge(member_views(members@), member_views(edges@)),
{
    let mut base = members;
    let ghost base0 = member_views(base@);
    let mut j: usize = 0;
    proof {
        assert(member_views(edges@).skip(0) =~= member_views(edges@));
    }
    while j < edges.len()
        invariant
            j <= edges@.len(),
            spec_merge(base0, member_views(edges@)) == spec_merge(
                member_views(base@),
                member_views(edges@).skip(j as int),
            ),
        decreases edges@.len() - j,
    {
        let ghost edge_views = member_views(edges@);
        proof {
            assert(edge_views.skip(j as int)[0] == edge_views[j as int]);
            assert(edge_views.skip(j as int).drop_first() =~= edge_views.skip(j as int + 1));
        }
        let ghost pre = member_views(base@);
        let mut k: usize = 0;
        let mut found: bool = false;
        while k < base.len() && !found
            invariant
                k <= base@.len(),
                pre == member_views(base@),
                !found ==> forall|l: int| 0 <= l < k ==> pre[l].address != edges@[j as int]@.address,
                found ==> k < base@.len() && pre[k as int].address == edges@[j as int]@.address
                    && (forall|l: int| 0 <= l < k ==> pre[l].address != edges@[j as int]@.address),
                j < edges@.len(),
            decreases base@.len() - k + (if found { 0int } else { 1int }),
        {
            if base[k].address == edges[j].address {
                found = true;
            } else {
                k = k + 1;
            }
        }
        if found {
            let mut m = base.remove(k);
            m.mode = edges[j].mode.clone();
            base.insert(k, m);
            proof {
                lemma_update_first_at(pre, edge_views[j as int].address, edge_views[j as int].mode, k as int);
                assert(member_views(base@) =~= pre.update(
                    k as int,
                    MemberV { mode: edge_views[j as int].mode, ..pre[k as int] },
                ));
            }
        } else {
            proof {
                lemma_update_first_at(pre, edge_views[j as int].address, edge_views[j as int].mode, k as int);
            }
        }
        j = j + 1;
    }
    proof {
        assert(member_views(edges@).skip(edges@.len() as int).len() == 0);
    }
    base
}

/// Reconciles the directory's member list with the control plane's edge
/// list: directory records minus the local address, display names from the
/// directory, modes overwritten by the matching edges.
pub fn reconcile(directory_rows: &Vec<Row>, me: &str, edges: &Vec<Member>) -> (r: Result<
    Vec<Member>,
    ProgramError,
>)
    ensures
        match spec_dir_members(directory_rows@, me@) {
            Ok(base) => r is Ok && member_views(r->Ok_0@) == spec_merge(
                base,
                member_views(edges@),
            ),
            Err(e) => r == Err::<Vec<Member>, ProgramError>(e),
        },
{
    match members_from_directory(directory_rows, me) {
        Ok(base) => Ok(merge_modes(base, edges)),
        Err(e) => Err(e),
    }
}

} // verus!
