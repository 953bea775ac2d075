//! Trace and span identifiers, as the bytes that travel between services.

use vstd::prelude::*;

verus! {

/// The identifier of a trace.
pub type TraceId = [u8; 16];

/// The identifier of a span.
pub type SpanId = [u8; 8];

/// Whether an identifier is all zeros. Such an identifier names nothing.
pub open spec fn all_zero(id: Seq<u8>) -> bool {
    forall|i: int| 0 <= i < id.len() ==> id[i] == 0
}

/// The span identifier that stands for "not set".
pub open spec fn no_span() -> Seq<u8> {
    Seq::new(8, |i: int| 0u8)
}

/// Whether two span identifiers are equal.
pub fn same_span(a: &SpanId, b: &SpanId) -> (same: bool)
    ensures
        same == (a@ == b@),
{
    let mut i: usize = 0;
    while i < 8
        invariant
            i <= 8,
            forall|j: int| 0 <= j < i ==> a@[j] == b@[j],
        decreases 8 - i,
    {
        if a[i] != b[i] {
            return false;
        }
        i = i + 1;
    }
    assert(a@ =~= b@);
    true
}

/// Whether `bytes` holds zeros only.
pub fn is_all_zero(bytes: &[u8]) -> (zero: bool)
    ensures
        zero == all_zero(bytes@),
{
    let mut i: usize = 0;
    while i < bytes.len()
        invariant
            i <= bytes.len(),
            forall|j: int| 0 <= j < i ==> bytes@[j] == 0,
        decreases bytes.len() - i,
    {
        if bytes[i] != 0 {
            return false;
        }
        i = i + 1;
    }
    true
}

/// Whether a span identifier has been set.
pub fn span_is_unset(id: &SpanId) -> (unset: bool)
    ensures
        unset == (id@ == no_span()),
{
    let unset = is_all_zero(id);
    assert(unset ==> id@ =~= no_span());
    unset
}

/// The span identifier that stands for "not set" is eight zeros, and no other identifier is.
pub proof fn law_unset_is_eight_zeros(id: Seq<u8>)
    ensures
        id == no_span() <==> id.len() == 8 && forall|i: int| 0 <= i < 8 ==> #[trigger] id[i] == 0,
        all_zero(id) <==> forall|i: int| 0 <= i < id.len() ==> #[trigger] id[i] == 0,
{
    if id == no_span() {
        assert(forall|i: int| 0 <= i < 8 ==> #[trigger] no_span()[i] == 0);
    }
    if id.len() == 8 && forall|i: int| 0 <= i < 8 ==> #[trigger] id[i] == 0 {
        assert(id =~= no_span());
    }
}

} // verus!
