//! Deterministic, collision-free output filenames.
//!
//! Each captured target is stored under a name derived from its URL alone.
//! The separators are made filesystem-safe — every `://` becomes `-` and
//! every remaining `/` becomes `_` — and so that two distinct URLs can never
//! collide on one file, a `-`, `_` or `~` that the URL itself already
//! contains is escaped first (`~m`, `~u` and `~~` respectively). The
//! derivation is a pure function of the URL string, so equal URLs always
//! name the same file, and it is provably injective, so distinct URLs never
//! name the same file.

use vstd::prelude::*;

verus! {

/// The filesystem-safe form of a URL: `://` becomes `-`, any other `/`
/// becomes `_`, and the URL's own `-`, `_` and `~` are escaped as `~m`,
/// `~u` and `~~` so that the substituted separators stay unambiguous.
pub open spec fn sanitize(s: Seq<char>) -> Seq<char>
    decreases s.len(),
{
    if s.len() >= 3 && s[0] == ':' && s[1] == '/' && s[2] == '/' {
        seq!['-'] + sanitize(s.skip(3))
    } else if s.len() == 0 {
        s
    } else if s[0] == '/' {
        seq!['_'] + sanitize(s.skip(1))
    } else if s[0] == '-' {
        seq!['~', 'm'] + sanitize(s.skip(1))
    } else if s[0] == '_' {
        seq!['~', 'u'] + sanitize(s.skip(1))
    } else if s[0] == '~' {
        seq!['~', '~'] + sanitize(s.skip(1))
    } else {
        seq![s[0]] + sanitize(s.skip(1))
    }
}

/// The inverse reading of a sanitized string, used to show that
/// sanitizing loses nothing.
spec fn desanitize(t: Seq<char>) -> Seq<char>
    decreases t.len(),
{
    if t.len() == 0 {
        t
    } else if t[0] == '-' {
        seq![':', '/', '/'] + desanitize(t.skip(1))
    } else if t[0] == '_' {
        seq!['/'] + desanitize(t.skip(1))
    } else if t[0] == '~' {
        if t.len() >= 2 {
            let original = if t[1] == 'm' {
                '-'
            } else if t[1] == 'u' {
                '_'
            } else {
                '~'
            };
            seq![original] + desanitize(t.skip(2))
        } else {
            t
        }
    } else {
        seq![t[0]] + desanitize(t.skip(1))
    }
}

/// The file name under which a capture of the given URL is stored.
pub open spec fn filename_of(url: Seq<char>) -> Seq<char> {
    sanitize(url) + ".png"@
}

/// Sanitizing loses nothing: the original URL can be read back from the
/// sanitized form.
proof fn lemma_sanitize_round_trip(s: Seq<char>)
    ensures
        desanitize(sanitize(s)) == s,
    decreases s.len(),
{
    if s.len() >= 3 && s[0] == ':' && s[1] == '/' && s[2] == '/' {
        let rest = sanitize(s.skip(3));
        assert((seq!['-'] + rest)[0] == '-');
        assert((seq!['-'] + rest).skip(1) =~= rest);
        lemma_sanitize_round_trip(s.skip(3));
        assert(seq![':', '/', '/'] + s.skip(3) =~= s);
        assert(desanitize(sanitize(s)) =~= s);
    } else if s.len() == 0 {
    } else {
        let rest = sanitize(s.skip(1));
        lemma_sanitize_round_trip(s.skip(1));
        if s[0] == '/' {
            assert((seq!['_'] + rest)[0] == '_');
            assert((seq!['_'] + rest).skip(1) =~= rest);
        } else if s[0] == '-' {
            assert((seq!['~', 'm'] + rest)[0] == '~');
            assert((seq!['~', 'm'] + rest)[1] == 'm');
            assert((seq!['~', 'm'] + rest).skip(2) =~= rest);
        } else if s[0] == '_' {
            assert((seq!['~', 'u'] + rest)[0] == '~');
            assert((seq!['~', 'u'] + rest)[1] == 'u');
            assert((seq!['~', 'u'] + rest).skip(2) =~= rest);
        } else if s[0] == '~' {
            assert((seq!['~', '~'] + rest)[0] == '~');
            assert((seq!['~', '~'] + rest)[1] == '~');
            assert((seq!['~', '~'] + rest).skip(2) =~= rest);
        } else {
            assert((seq![s[0]] + rest)[0] == s[0]);
            assert((seq![s[0]] + rest).skip(1) =~= rest);
        }
        assert(seq![s[0]] + s.skip(1) =~= s);
        assert(desanitize(sanitize(s)) =~= s);
    }
}

/// Distinct URLs never store under the same file name.
pub proof fn lemma_filename_injective(u1: Seq<char>, u2: Seq<char>)
    requires
        filename_of(u1) == filename_of(u2),
    ensures
        u1 == u2,
{
    let a = sanitize(u1);
    let b = sanitize(u2);
    let ext = ".png"@;
    assert(a.len() == b.len()) by {
        assert((a + ext).len() == (b + ext).len());
    }
    assert(a =~= b) by {
        assert(forall|i: int| 0 <= i < a.len() ==> a[i] == (a + ext)[i] && b[i] == (b + ext)[i]);
    }
    lemma_sanitize_round_trip(u1);
    lemma_sanitize_round_trip(u2);
}

/// The derivation is a pure function of the URL string: capturing the same
/// URL twice, in the same or another run, stores under the same file name.
pub proof fn lemma_filename_deterministic(u1: Seq<char>, u2: Seq<char>)
    requires
        u1 == u2,
    ensures
        filename_of(u1) == filename_of(u2),
{
}

/// A URL under the `https` scheme and one under the `http` scheme never
/// store under the same file name: the two URLs already differ, and the
/// derivation never merges distinct URLs.
pub proof fn lemma_distinct_schemes_distinct_files(u1: Seq<char>, u2: Seq<char>)
    requires
        u1.len() >= 8,
        u1.subrange(0, 8) == "https://"@,
        u2.len() >= 7,
        u2.subrange(0, 7) == "http://"@,
    ensures
        filename_of(u1) != filename_of(u2),
{
    reveal_strlit("https://");
    reveal_strlit("http://");
    assert(u1[4] == 's') by {
        assert(u1.subrange(0, 8)[4] == u1[4]);
    }
    assert(u2[4] == ':') by {
        assert(u2.subrange(0, 7)[4] == u2[4]);
    }
    if filename_of(u1) == filename_of(u2) {
        lemma_filename_injective(u1, u2);
    }
}

/// Relies on `String::push`: appends the character at the end of the string.
#[verifier::external_body]
fn push_char(s: &mut String, c: char)
    ensures
        final(s)@ == old(s)@.push(c),
{
    s.push(c);
}

/// Derive the output filename for a URL.
pub fn derive_filename(url: &str) -> (r: String)
    ensures
        r@ == filename_of(url@),
{
    let n = url.unicode_len();
    let mut out = String::new();
    let mut i: usize = 0;
    proof {
        assert(url@.skip(0) =~= url@);
        assert(out@ + sanitize(url@) =~= sanitize(url@));
    }
    while i < n
        invariant
            i <= n,
            n == url@.len(),
            sanitize(url@) == out@ + sanitize(url@.skip(i as int)),
        decreases n - i,
    {
        let ghost pre = out@;
        let ghost rest = url@.skip(i as int);
        let c = url.get_char(i);
        proof {
            assert(rest.len() == n - i);
            assert(rest[0] == c);
        }
        if n - i > 2 && c == ':' && url.get_char(i + 1) == '/' && url.get_char(i + 2) == '/' {
            proof {
                assert(rest[1] == url@[i + 1] && rest[2] == url@[i + 2]);
                assert(rest.skip(3) =~= url@.skip(i + 3));
            }
            push_char(&mut out, '-');
            proof {
                assert(out@ =~= pre + seq!['-']);
                assert(sanitize(url@) =~= out@ + sanitize(url@.skip(i + 3)));
            }
            i = i + 3;
        } else {
            proof {
                assert(!(rest.len() >= 3 && rest[0] == ':' && rest[1] == '/' && rest[2] == '/'));
                assert(rest.skip(1) =~= url@.skip(i + 1));
            }
            if c == '/' {
                push_char(&mut out, '_');
                proof {
                    assert(out@ =~= pre + seq!['_']);
                }
            } else if c == '-' {
                push_char(&mut out, '~');
                push_char(&mut out, 'm');
                proof {
                    assert(out@ =~= pre + seq!['~', 'm']);
                }
            } else if c == '_' {
                push_char(&mut out, '~');
                push_char(&mut out, 'u');
                proof {
                    assert(out@ =~= pre + seq!['~', 'u']);
                }
            } else if c == '~' {
                push_char(&mut out, '~');
                push_char(&mut out, '~');
                proof {
                    assert(out@ =~= pre + seq!['~', '~']);
                }
            } else {
                push_char(&mut out, c);
                proof {
                    assert(out@ =~= pre + seq![c]);
                }
            }
            proof {
                assert(sanitize(url@) =~= out@ + sanitize(url@.skip(i + 1)));
            }
            i = i + 1;
        }
    }
    proof {
        assert(url@.skip(n as int) =~= Seq::<char>::empty());
        assert(sanitize(url@.skip(n as int)) =~= Seq::<char>::empty());
        assert(out@ =~= sanitize(url@));
    }
    out.append(".png");
    out
}

} // verus!
