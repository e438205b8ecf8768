//! The resolver side of the pipeline: which addresses a run asks about, in
//! which order, and when a provider response counts as a resolution.

use vstd::prelude::*;

verus! {

use crate::dispatch::ErrorKind;
use crate::record::GeoRecord;

/// One request for geographic metadata: an explicit address, or the caller's
/// own address, optionally constrained to one address family.
#[derive(Debug, Clone, PartialEq, Eq)]
pub enum Specifier {
    Explicit(String),
    CallerAny,
    CallerV4,
    CallerV6,
}

/// The caller-lookup specifiers a run starts with, in their fixed order.
pub open spec fn caller_specifiers(any: bool, v4: bool, v6: bool) -> Seq<Specifier> {
    (if any {
        seq![Specifier::CallerAny]
    } else {
        Seq::<Specifier>::empty()
    }) + (if v4 {
        seq![Specifier::CallerV4]
    } else {
        Seq::<Specifier>::empty()
    }) + (if v6 {
        seq![Specifier::CallerV6]
    } else {
        Seq::<Specifier>::empty()
    })
}

/// Every specifier of a run, in the order it is processed: the caller
/// lookups first, then each explicit address in the order given.
pub open spec fn specifier_order(any: bool, v4: bool, v6: bool, ips: Seq<String>) -> Seq<
    Specifier,
> {
    caller_specifiers(any, v4, v6) + ips.map_values(|s: String| Specifier::Explicit(s))
}

pub fn build_specifiers(my_ip: bool, my_ipv4: bool, my_ipv6: bool, ips: Vec<String>) -> (r: Vec<
    Specifier,
>)
    ensures
        r@ == specifier_order(my_ip, my_ipv4, my_ipv6, ips@),
{
    let mut r: Vec<Specifier> = Vec::new();
    if my_ip {
        r.push(Specifier::CallerAny);
    }
    if my_ipv4 {
        r.push(Specifier::CallerV4);
    }
    if my_ipv6 {
        r.push(Specifier::CallerV6);
    }
    proof {
        assert(r@ =~= caller_specifiers(my_ip, my_ipv4, my_ipv6));
    }
    let ghost base = r@;
    let ghost all = ips@;
    let mut rest = ips;
    while rest.len() > 0
        invariant
            rest@ =~= all.skip(all.len() - rest@.len()),
            r@ == base + all.take(all.len() - rest@.len()).map_values(
                |s: String| Specifier::Explicit(s),
            ),
            rest@.len() <= all.len(),
        decreases rest.len(),
    {
        let ghost i = all.len() - rest@.len();
        let s = rest.remove(0);
        proof {
            assert(s == all[i]);
            assert(rest@ =~= all.skip(i + 1));
        }
        r.push(Specifier::Explicit(s));
        proof {
            assert(all.take(i + 1).map_values(|t: String| Specifier::Explicit(t)) =~= all.take(
                i,
            ).map_values(|t: String| Specifier::Explicit(t)).push(Specifier::Explicit(all[i])));
        }
    }
    proof {
        assert(all.take(all.len() as int) =~= all);
    }
    r
}

/// A provider response becomes a resolution result exactly when it names the
/// address it resolved: a payload with an empty address is rejected, so every
/// record a resolution yields has a non-empty `ip`.
pub fn accept_response(rec: GeoRecord) -> (r: Result<GeoRecord, ErrorKind>)
    ensures
        match r {
            Ok(g) => g == rec && rec.ip@.len() > 0,
            Err(k) => k == ErrorKind::Resolution && rec.ip@.len() == 0,
        },
{
    if rec.ip.as_str().is_empty() {
        Err(ErrorKind::Resolution)
    } else {
        Ok(rec)
    }
}

} // verus!
