//! Finding the DRM card that drives a connector from the entries of
//! `/sys/class/drm`, which are named `card<index>-<connector>`.
use vstd::prelude::*;
use vstd::string::StrSliceExecFns;

verus! {

/// The index of the first `c` in `s`.
pub open spec fn spec_first_index_of(s: Seq<char>, c: char) -> Option<int>
    decreases s.len(),
{
    if s.len() == 0 {
        None
    } else {
        match spec_first_index_of(s.drop_last(), c) {
            Some(i) => Some(i),
            None => if s.last() == c {
                Some(s.len() - 1)
            } else {
                None
            },
        }
    }
}

/// Whether `name` is `card` followed by one or more decimal digits.
pub open spec fn spec_is_card_name(name: Seq<char>) -> bool {
    &&& name.len() > 4
    &&& name[0] == 'c' && name[1] == 'a' && name[2] == 'r' && name[3] == 'd'
    &&& forall|i: int| 4 <= i < name.len() ==> '0' <= #[trigger] name[i] <= '9'
}

/// The card of a DRM class entry `card<index>-<connector>` whose connector is
/// `connector`: the entry splits at its first `-`.
pub open spec fn spec_card_for_connector(entry: Seq<char>, connector: Seq<char>) -> Option<Seq<char>> {
    match spec_first_index_of(entry, '-') {
        None => None,
        Some(k) => if spec_is_card_name(entry.take(k)) && entry.skip(k + 1) == connector {
            Some(entry.take(k))
        } else {
            None
        },
    }
}

proof fn lemma_first_index_of(s: Seq<char>, c: char, k: int)
    requires
        0 <= k < s.len(),
        s[k] == c,
        forall|j: int| 0 <= j < k ==> s[j] != c,
    ensures
        spec_first_index_of(s, c) == Some(k),
    decreases s.len(),
{
    if k < s.len() - 1 {
        lemma_first_index_of(s.drop_last(), c, k);
    } else {
        lemma_no_index_of(s.drop_last(), c);
    }
}

proof fn lemma_no_index_of(s: Seq<char>, c: char)
    requires
        forall|j: int| 0 <= j < s.len() ==> s[j] != c,
    ensures
        spec_first_index_of(s, c) is None,
    decreases s.len(),
{
    if s.len() > 0 {
        lemma_no_index_of(s.drop_last(), c);
    }
}

fn chars_equal(a: &str, b: &str) -> (r: bool)
    ensures
        r == (a@ == b@),
{
    let n = a.unicode_len();
    if n != b.unicode_len() {
        return false;
    }
    let mut i: usize = 0;
    while i < n
        invariant
            n == a@.len() == b@.len(),
            i <= n,
            forall|j: int| 0 <= j < i ==> a@[j] == b@[j],
        decreases n - i,
    {
        if a.get_char(i) != b.get_char(i) {
            return false;
        }
        i = i + 1;
    }
    assert(a@ =~= b@);
    true
}

/// The card name (`card<index>`) of the DRM class entry `entry` when that
/// entry is the connector `connector`; see `spec_card_for_connector`.
pub fn card_for_connector<'a>(entry: &'a str, connector: &str) -> (r: Option<&'a str>)
    ensures
        match r {
            Some(card) => spec_card_for_connector(entry@, connector@) == Some(card@),
            None => spec_card_for_connector(entry@, connector@) is None,
        },
{
    let n = entry.unicode_len();
    let mut k: usize = 0;
    while k < n && entry.get_char(k) != '-'
        invariant
            n == entry@.len(),
            k <= n,
            forall|j: int| 0 <= j < k ==> entry@[j] != '-',
        decreases n - k,
    {
        k = k + 1;
    }
    if k == n {
        proof {
            lemma_no_index_of(entry@, '-');
        }
        return None;
    }
    proof {
        lemma_first_index_of(entry@, '-', k as int);
    }
    let card = entry.substring_char(0, k);
    let rest = entry.substring_char(k + 1, n);
    assert(card@ =~= entry@.take(k as int));
    assert(rest@ =~= entry@.skip(k as int + 1));
    if k <= 4 || card.get_char(0) != 'c' || card.get_char(1) != 'a' || card.get_char(2) != 'r' || card.get_char(3) != 'd' {
        return None;
    }
    let mut i: usize = 4;
    while i < k
        invariant
            card@.len() == k,
            card@ == entry@.take(k as int),
            spec_first_index_of(entry@, '-') == Some(k as int),
            4 <= i <= k,
            forall|j: int| 4 <= j < i ==> '0' <= #[trigger] card@[j] <= '9',
        decreases k - i,
    {
        let c = card.get_char(i);
        if !('0' <= c && c <= '9') {
            assert(!spec_is_card_name(card@));
            return None;
        }
        i = i + 1;
    }
    if !chars_equal(rest, connector) {
        return None;
    }
    Some(card)
}

} // verus!
