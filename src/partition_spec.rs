//! The partition-entry mini-language: `"<device>:<mountpoint>:<filesystem>"`.
use vstd::prelude::*;
use vstd::string::*;

verus! {

/// One manually specified partition: where it lives, where it is mounted,
/// and which filesystem it gets.
#[derive(Clone, Debug, PartialEq, Eq)]
pub struct PartitionSpec {
    pub device: String,
    pub mountpoint: String,
    pub filesystem: String,
}

/// Why a partition entry was refused.
#[derive(Clone, Copy, Debug, PartialEq, Eq, Structural)]
pub enum SpecError {
    /// The entry does not consist of exactly three non-empty colon-separated fields.
    Malformed,
}

/// The colon-separated fields of `s`, in order. A string without colons is one
/// field; each colon starts a new (possibly empty) field.
pub open spec fn fields(s: Seq<char>) -> Seq<Seq<char>>
    decreases s.len(),
{
    if s.len() == 0 {
        seq![Seq::<char>::empty()]
    } else {
        let f = fields(s.drop_last());
        if s.last() == ':' {
            f.push(Seq::<char>::empty())
        } else {
            f.update(f.len() - 1, f.last().push(s.last()))
        }
    }
}

/// An entry is well formed when it has exactly three fields, none of them empty.
pub open spec fn is_well_formed(s: Seq<char>) -> bool {
    &&& fields(s).len() == 3
    &&& forall|i: int| 0 <= i < 3 ==> (#[trigger] fields(s)[i]).len() > 0
}

pub open spec fn has_no_colon(s: Seq<char>) -> bool {
    forall|i: int| 0 <= i < s.len() ==> s[i] != ':'
}

/// Every string has at least one field.
pub proof fn lemma_fields_len(s: Seq<char>)
    ensures
        fields(s).len() >= 1,
    decreases s.len(),
{
    if s.len() > 0 {
        lemma_fields_len(s.drop_last());
    }
}

/// Appending colon-free text extends the last field and adds no field.
proof fn lemma_fields_append_plain(x: Seq<char>, y: Seq<char>)
    requires
        has_no_colon(y),
    ensures
        fields(x + y) == fields(x).update(fields(x).len() - 1, fields(x).last() + y),
    decreases y.len(),
{
    lemma_fields_len(x);
    if y.len() == 0 {
        assert(x + y =~= x);
        assert(fields(x).last() + y =~= fields(x).last());
        assert(fields(x).update(fields(x).len() - 1, fields(x).last()) =~= fields(x));
    } else {
        let y0 = y.drop_last();
        assert(has_no_colon(y0));
        lemma_fields_append_plain(x, y0);
        assert((x + y).drop_last() =~= x + y0);
        assert((x + y).last() == y.last());
        assert((fields(x).last() + y0).push(y.last()) =~= fields(x).last() + y);
        assert(fields(x + y) =~= fields(x).update(fields(x).len() - 1, fields(x).last() + y));
    }
}

/// A colon ends the current field and opens an empty one.
proof fn lemma_fields_push_colon(x: Seq<char>)
    ensures
        fields(x.push(':')) == fields(x).push(Seq::<char>::empty()),
{
    assert(x.push(':').drop_last() =~= x);
}

/// Three colon-free fields joined by colons split back into exactly those fields,
/// so an entry written as `a:b:c` with `a`, `b`, `c` non-empty is well formed and
/// its fields are `a`, `b` and `c` in this order.
pub proof fn lemma_fields_of_joined(a: Seq<char>, b: Seq<char>, c: Seq<char>)
    requires
        has_no_colon(a),
        has_no_colon(b),
        has_no_colon(c),
    ensures
        fields(a + seq![':'] + b + seq![':'] + c) == seq![a, b, c],
        a.len() > 0 && b.len() > 0 && c.len() > 0 ==> is_well_formed(
            a + seq![':'] + b + seq![':'] + c,
        ),
{
    let e = Seq::<char>::empty();
    lemma_fields_append_plain(e, a);
    assert(e + a =~= a);
    assert(fields(e) =~= seq![e]);
    assert(fields(a) =~= seq![a]);
    let a1 = a + seq![':'];
    assert(a1 =~= a.push(':'));
    lemma_fields_push_colon(a);
    lemma_fields_append_plain(a1, b);
    let ab = a1 + b;
    assert(fields(ab) =~= seq![a, b]);
    let ab1 = ab + seq![':'];
    assert(ab1 =~= ab.push(':'));
    lemma_fields_push_colon(ab);
    lemma_fields_append_plain(ab1, c);
    assert(fields(ab1 + c) =~= seq![a, b, c]);
}

/// Parses one partition entry. It succeeds exactly when the entry has three
/// non-empty colon-separated fields, and then holds them in order.
pub fn parse_partition_spec(s: &str) -> (r: Result<PartitionSpec, SpecError>)
    ensures
        r is Ok <==> is_well_formed(s@),
        r is Err ==> r == Err::<PartitionSpec, SpecError>(SpecError::Malformed),
        r matches Ok(p) ==> {
            &&& p.device@ == fields(s@)[0]
            &&& p.mountpoint@ == fields(s@)[1]
            &&& p.filesystem@ == fields(s@)[2]
        },
{
    let n = s.unicode_len();
    let mut parts: Vec<&str> = Vec::new();
    let mut start: usize = 0;
    let mut i: usize = 0;
    assert(s@.subrange(0, 0) =~= Seq::<char>::empty());
    while i < n
        invariant
            n == s@.len(),
            start <= i <= n,
            parts@.map_values(|p: &str| p@) + seq![s@.subrange(start as int, i as int)]
                == fields(s@.subrange(0, i as int)),
        decreases n - i,
    {
        let ch = s.get_char(i);
        let ghost pre = s@.subrange(0, i as int);
        let ghost f = fields(pre);
        proof {
            lemma_fields_len(pre);
            assert(s@.subrange(0, i + 1).drop_last() =~= pre);
            assert(s@.subrange(0, i + 1).last() == ch);
        }
        if ch == ':' {
            let piece = s.substring_char(start, i);
            let ghost old_views = parts@.map_values(|p: &str| p@);
            parts.push(piece);
            proof {
                assert(parts@.map_values(|p: &str| p@) =~= old_views.push(piece@));
                assert(s@.subrange((i + 1) as int, (i + 1) as int) =~= Seq::<char>::empty());
                assert(parts@.map_values(|p: &str| p@) + seq![
                    s@.subrange((i + 1) as int, (i + 1) as int),
                ] =~= f.push(Seq::<char>::empty()));
            }
            start = i + 1;
        } else {
            proof {
                assert(s@.subrange(start as int, i + 1) =~= s@.subrange(start as int, i as int).push(
                    ch,
                ));
                assert(parts@.map_values(|p: &str| p@) + seq![s@.subrange(start as int, i + 1)]
                    =~= f.update(f.len() - 1, f.last().push(ch)));
            }
        }
        i = i + 1;
    }
    let last = s.substring_char(start, n);
    let ghost before = parts@.map_values(|p: &str| p@);
    parts.push(last);
    proof {
        assert(s@.subrange(0, n as int) =~= s@);
        assert(parts@.map_values(|p: &str| p@) =~= before.push(last@));
    }
    let ghost views = parts@.map_values(|p: &str| p@);
    assert(views == fields(s@));
    if parts.len() != 3 {
        return Err(SpecError::Malformed);
    }
    let device = parts[0];
    let mountpoint = parts[1];
    let filesystem = parts[2];
    assert(views[0] == device@ && views[1] == mountpoint@ && views[2] == filesystem@);
    if device.unicode_len() == 0 || mountpoint.unicode_len() == 0 || filesystem.unicode_len()
        == 0 {
        return Err(SpecError::Malformed);
    }
    assert(forall|k: int| 0 <= k < 3 ==> (#[trigger] fields(s@)[k]).len() > 0) by {
        assert(fields(s@)[0].len() > 0);
        assert(fields(s@)[1].len() > 0);
        assert(fields(s@)[2].len() > 0);
    }
    Ok(
        PartitionSpec {
            device: String::from_str(device),
            mountpoint: String::from_str(mountpoint),
            filesystem: String::from_str(filesystem),
        },
    )
}

} // verus!
