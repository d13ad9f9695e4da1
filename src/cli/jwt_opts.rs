use vstd::prelude::*;

verus! {

/// The JWT subcommands.
#[derive(Debug)]
pub enum JWTCmd {
    Sign(JWTSignOpts),
    Verify(JWTVerifyOpts),
}

/// Options of token creation: subject, comma-separated audiences, lifetime in
/// seconds and the shared secret.
#[derive(Debug)]
pub struct JWTSignOpts {
    pub sub: String,
    pub aud: String,
    pub exp: u64,
    pub secret: String,
}

/// Options of token verification: the token, the shared secret and the
/// comma-separated audiences accepted.
#[derive(Debug)]
pub struct JWTVerifyOpts {
    pub token: String,
    pub secret: String,
    pub aud: String,
}

/// Options of JWT key generation: where the key goes.
#[derive(Debug)]
pub struct JWTKeyGenerateOpts {
    pub path: String,
}

/// The fields joined with `sep` between each two.
pub open spec fn joined(fields: Seq<Seq<char>>, sep: char) -> Seq<char>
    decreases fields.len(),
{
    if fields.len() == 0 {
        Seq::empty()
    } else if fields.len() == 1 {
        fields[0]
    } else {
        joined(fields.drop_last(), sep) + seq![sep] + fields.last()
    }
}

/// The texts held by a vector of strings.
pub open spec fn texts(v: Seq<String>) -> Seq<Seq<char>> {
    v.map_values(|s: String| s@)
}

/// The comma-separated audiences in `aud`: the fields between commas, in order,
/// empty ones included.
pub fn split_audience(aud: &str) -> (r: Vec<String>)
    ensures
        r@.len() >= 1,
        joined(texts(r@), ',') == aud@,
        forall|i: int| 0 <= i < r@.len() ==> !(#[trigger] r@[i])@.contains(','),
{
    let n = aud.unicode_len();
    let mut out: Vec<String> = Vec::new();
    let mut start: usize = 0;
    let mut i: usize = 0;
    while i < n
        invariant
            n == aud@.len(),
            start <= i <= n,
            out@.len() == 0 ==> start == 0,
            out@.len() > 0 ==> joined(texts(out@), ',') + seq![','] == aud@.subrange(0, start as int),
            forall|k: int| 0 <= k < out@.len() ==> !(#[trigger] out@[k])@.contains(','),
            forall|k: int| start <= k < i ==> aud@[k] != ',',
        decreases n - i,
    {
        if aud.get_char(i) == ',' {
            let field = aud.substring_char(start, i).to_owned();
            let ghost before = out@;
            out.push(field);
            proof {
                assert(texts(out@).drop_last() =~= texts(before));
                if before.len() > 0 {
                    assert(aud@.subrange(0, i + 1) =~= aud@.subrange(0, start as int) + field@ + seq![',']);
                } else {
                    assert(aud@.subrange(0, i + 1) =~= field@ + seq![',']);
                }
                assert forall|k: int| 0 <= k < out@.len() implies !(#[trigger] out@[k])@.contains(',') by {
                    if k == before.len() {
                        assert forall|m: int| 0 <= m < field@.len() implies field@[m] != ',' by {
                            assert(field@[m] == aud@[start + m]);
                        }
                    }
                }
            }
            start = i + 1;
        }
        i += 1;
    }
    let field = aud.substring_char(start, n).to_owned();
    let ghost before = out@;
    out.push(field);
    proof {
        assert(texts(out@).drop_last() =~= texts(before));
        if before.len() > 0 {
            assert(aud@ =~= aud@.subrange(0, start as int) + field@);
        } else {
            assert(aud@ =~= field@);
        }
        assert forall|k: int| 0 <= k < out@.len() implies !(#[trigger] out@[k])@.contains(',') by {
            if k == before.len() {
                assert forall|m: int| 0 <= m < field@.len() implies field@[m] != ',' by {
                    assert(field@[m] == aud@[start + m]);
                }
            }
        }
    }
    out
}

} // verus!
