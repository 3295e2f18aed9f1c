use vstd::prelude::*;

verus! {

/// A lowercase hexadecimal digit, the only characters a UUID holds
/// besides its four hyphens.
pub open spec fn is_hex_digit(c: char) -> bool {
    ||| c == '0'
    ||| c == '1'
    ||| c == '2'
    ||| c == '3'
    ||| c == '4'
    ||| c == '5'
    ||| c == '6'
    ||| c == '7'
    ||| c == '8'
    ||| c == '9'
    ||| c == 'a'
    ||| c == 'b'
    ||| c == 'c'
    ||| c == 'd'
    ||| c == 'e'
    ||| c == 'f'
}

/// The canonical textual form of a version-4 UUID: 36 characters,
/// hyphens at positions 8, 13, 18 and 23, lowercase hex digits
/// everywhere else, the version nibble (position 14) equal to 4 and
/// the variant nibble (position 19) one of 8, 9, a, b.
pub open spec fn is_uuid_v4_text(s: Seq<char>) -> bool {
    &&& s.len() == 36
    &&& forall|i: int|
        0 <= i < 36 ==> (if i == 8 || i == 13 || i == 18 || i == 23 {
            #[trigger] s[i] == '-'
        } else {
            is_hex_digit(s[i])
        })
    &&& s[14] == '4'
    &&& (s[19] == '8' || s[19] == '9' || s[19] == 'a' || s[19] == 'b')
}

/// The character substitution a scan ID applies to its UUID part.
pub open spec fn underscored(c: char) -> char {
    if c == '-' {
        '_'
    } else {
        c
    }
}

/// The inverse substitution, taking a scan ID's body back to UUID text.
pub open spec fn hyphened(c: char) -> char {
    if c == '_' {
        '-'
    } else {
        c
    }
}

/// The scan ID derived from UUID text `u`: the prefix `v_` followed by
/// `u` with every hyphen replaced by an underscore.
pub open spec fn scan_id_text(u: Seq<char>) -> Seq<char> {
    Seq::new(
        u.len() + 2,
        |i: int|
            if i == 0 {
                'v'
            } else if i == 1 {
                '_'
            } else {
                underscored(u[i - 2])
            },
    )
}

/// The UUID text a scan ID was derived from: drop the two prefix
/// characters and turn every underscore back into a hyphen.
pub open spec fn uuid_text_of_scan_id(s: Seq<char>) -> Seq<char> {
    Seq::new((s.len() - 2) as nat, |i: int| hyphened(s[i + 2]))
}

/// Text that is the scan ID of some canonical version-4 UUID text.
pub open spec fn is_scan_id_text(s: Seq<char>) -> bool {
    exists|u: Seq<char>| is_uuid_v4_text(u) && s == scan_id_text(u)
}

/// Relies on uuid::Uuid::new_v4, which draws random bytes and forces
/// the version nibble to 4 and the variant nibble to one of 8, 9, a, b,
/// and on Uuid's Display, which renders the lowercase hyphenated
/// 8-4-4-4-12 form.
#[verifier::external_body]
fn fresh_uuid_text() -> (r: String)
    ensures
        is_uuid_v4_text(r@),
{
    uuid::Uuid::new_v4().to_string()
}

/// Relies on rand's random_range: a uniform draw from `0..n`, in
/// bounds by construction; the call panics only on an empty range.
#[verifier::external_body]
fn random_index(n: usize) -> (r: usize)
    requires
        n > 0,
    ensures
        r < n,
{
    rand::RngExt::random_range(&mut rand::rng(), 0..n)
}

/// Generates a random UUID as a `String`.
pub fn uuid() -> (r: String)
    ensures
        is_uuid_v4_text(r@),
{
    fresh_uuid_text()
}

/// Rewrites UUID text into scan-ID form: prefixes `v_` and replaces
/// every hyphen with an underscore. A pure function of its input.
pub fn scan_id_from(u: &str) -> (r: String)
    ensures
        r@ == scan_id_text(u@),
{
    let mut out = String::from_str("v_");
    proof {
        reveal_strlit("v_");
    }
    let len = u.unicode_len();
    let mut i: usize = 0;
    while i < len
        invariant
            len == u@.len(),
            i <= len,
            out@.len() == i + 2,
            forall|j: int| 0 <= j < i + 2 ==> out@[j] == scan_id_text(u@)[j],
        decreases len - i,
    {
        let c = u.get_char(i);
        if c == '-' {
            out.append("_");
            proof {
                reveal_strlit("_");
            }
        } else {
            let piece = u.substring_char(i, i + 1);
            out.append(piece);
        }
        i += 1;
    }
    proof {
        assert(out@ =~= scan_id_text(u@));
    }
    out
}

/// Generates a scan ID with a prefix and UUID-based identifier.
pub fn scan_id() -> (r: String)
    ensures
        is_scan_id_text(r@),
        r@.len() == 38,
        r@[0] == 'v',
        r@[1] == '_',
        forall|i: int| 0 <= i < r@.len() ==> r@[i] != '-',
{
    let u = uuid();
    let r = scan_id_from(u.as_str());
    proof {
        lemma_scan_id_shape(u@);
        assert(is_scan_id_text(r@)) by {
            assert(is_uuid_v4_text(u@) && r@ == scan_id_text(u@));
        }
    }
    r
}

/// The shape of every scan ID derived from canonical version-4 UUID
/// text: 38 characters, the literal prefix `v_`, no hyphen anywhere,
/// and the derivation loses nothing, since turning the underscores of
/// the body back into hyphens recovers the original UUID text.
pub proof fn lemma_scan_id_shape(u: Seq<char>)
    requires
        is_uuid_v4_text(u),
    ensures
        scan_id_text(u).len() == 38,
        scan_id_text(u)[0] == 'v',
        scan_id_text(u)[1] == '_',
        forall|i: int| 0 <= i < 38 ==> #[trigger] scan_id_text(u)[i] != '-',
        uuid_text_of_scan_id(scan_id_text(u)) == u,
        is_uuid_v4_text(uuid_text_of_scan_id(scan_id_text(u))),
{
    assert forall|i: int| 0 <= i < 38 implies #[trigger] scan_id_text(u)[i] != '-' by {
        if i >= 2 {
            assert(u[i - 2] == '-' || is_hex_digit(u[i - 2]));
        }
    }
    assert(uuid_text_of_scan_id(scan_id_text(u)) =~= u) by {
        assert forall|i: int| 0 <= i < 36 implies uuid_text_of_scan_id(scan_id_text(u))[i]
            == u[i] by {
            assert(u[i] == '-' || is_hex_digit(u[i]));
        }
    }
}

/// The fixed ordered list of eight User-Agent strings, by position.
pub open spec fn user_agent_at(i: int) -> Seq<char> {
    if i == 0 {
        "Mozilla/5.0 (Windows NT 10.0; Win64; x64) AppleWebKit/537.36 (KHTML, like Gecko) Chrome/120.0.0.0 Safari/537.36"@
    } else if i == 1 {
        "Mozilla/5.0 (Macintosh; Intel Mac OS X 10_15_7) AppleWebKit/537.36 (KHTML, like Gecko) Chrome/119.0.0.0 Safari/537.36"@
    } else if i == 2 {
        "Mozilla/5.0 (X11; Linux x86_64) AppleWebKit/537.36 (KHTML, like Gecko) Chrome/118.0.0.0 Safari/537.36"@
    } else if i == 3 {
        "Mozilla/5.0 (iPhone; CPU iPhone OS 17_0 like Mac OS X) AppleWebKit/537.36 (KHTML, like Gecko) Version/17.0 Mobile/15E148 Safari/537.36"@
    } else if i == 4 {
        "Mozilla/5.0 (iPad; CPU OS 16_0 like Mac OS X) AppleWebKit/537.36 (KHTML, like Gecko) Version/16.0 Mobile/15E148 Safari/537.36"@
    } else if i == 5 {
        "Mozilla/5.0 (Android 13; Mobile; rv:109.0) Gecko/109.0 Firefox/109.0"@
    } else if i == 6 {
        "Mozilla/5.0 (Windows NT 10.0; Win64; x64; rv:108.0) Gecko/20100101 Firefox/108.0"@
    } else {
        "Mozilla/5.0 (X11; Ubuntu; Linux x86_64; rv:107.0) Gecko/20100101 Firefox/107.0"@
    }
}

/// Text that is one of the eight fixed User-Agent strings.
pub open spec fn is_user_agent_text(s: Seq<char>) -> bool {
    exists|i: int| 0 <= i < 8 && s == user_agent_at(i)
}

/// None of the eight User-Agent strings is empty.
pub proof fn lemma_user_agent_nonempty(i: int)
    requires
        0 <= i < 8,
    ensures
        user_agent_at(i).len() > 0,
{
    reveal_strlit(
        "Mozilla/5.0 (Windows NT 10.0; Win64; x64) AppleWebKit/537.36 (KHTML, like Gecko) Chrome/120.0.0.0 Safari/537.36",
    );
    reveal_strlit(
        "Mozilla/5.0 (Macintosh; Intel Mac OS X 10_15_7) AppleWebKit/537.36 (KHTML, like Gecko) Chrome/119.0.0.0 Safari/537.36",
    );
    reveal_strlit(
        "Mozilla/5.0 (X11; Linux x86_64) AppleWebKit/537.36 (KHTML, like Gecko) Chrome/118.0.0.0 Safari/537.36",
    );
    reveal_strlit(
        "Mozilla/5.0 (iPhone; CPU iPhone OS 17_0 like Mac OS X) AppleWebKit/537.36 (KHTML, like Gecko) Version/17.0 Mobile/15E148 Safari/537.36",
    );
    reveal_strlit(
        "Mozilla/5.0 (iPad; CPU OS 16_0 like Mac OS X) AppleWebKit/537.36 (KHTML, like Gecko) Version/16.0 Mobile/15E148 Safari/537.36",
    );
    reveal_strlit("Mozilla/5.0 (Android 13; Mobile; rv:109.0) Gecko/109.0 Firefox/109.0");
    reveal_strlit(
        "Mozilla/5.0 (Windows NT 10.0; Win64; x64; rv:108.0) Gecko/20100101 Firefox/108.0",
    );
    reveal_strlit(
        "Mozilla/5.0 (X11; Ubuntu; Linux x86_64; rv:107.0) Gecko/20100101 Firefox/107.0",
    );
}

/// The User-Agent string at a given position of the fixed list.
pub fn user_agent_nth(i: usize) -> (r: String)
    requires
        i < 8,
    ensures
        r@ == user_agent_at(i as int),
{
    let s: &str = if i == 0 {
        "Mozilla/5.0 (Windows NT 10.0; Win64; x64) AppleWebKit/537.36 (KHTML, like Gecko) Chrome/120.0.0.0 Safari/537.36"
    } else if i == 1 {
        "Mozilla/5.0 (Macintosh; Intel Mac OS X 10_15_7) AppleWebKit/537.36 (KHTML, like Gecko) Chrome/119.0.0.0 Safari/537.36"
    } else if i == 2 {
        "Mozilla/5.0 (X11; Linux x86_64) AppleWebKit/537.36 (KHTML, like Gecko) Chrome/118.0.0.0 Safari/537.36"
    } else if i == 3 {
        "Mozilla/5.0 (iPhone; CPU iPhone OS 17_0 like Mac OS X) AppleWebKit/537.36 (KHTML, like Gecko) Version/17.0 Mobile/15E148 Safari/537.36"
    } else if i == 4 {
        "Mozilla/5.0 (iPad; CPU OS 16_0 like Mac OS X) AppleWebKit/537.36 (KHTML, like Gecko) Version/16.0 Mobile/15E148 Safari/537.36"
    } else if i == 5 {
        "Mozilla/5.0 (Android 13; Mobile; rv:109.0) Gecko/109.0 Firefox/109.0"
    } else if i == 6 {
        "Mozilla/5.0 (Windows NT 10.0; Win64; x64; rv:108.0) Gecko/20100101 Firefox/108.0"
    } else {
        "Mozilla/5.0 (X11; Ubuntu; Linux x86_64; rv:107.0) Gecko/20100101 Firefox/107.0"
    };
    String::from_str(s)
}

/// Returns a random User-Agent string from a predefined list.
pub fn user_agent() -> (r: String)
    ensures
        is_user_agent_text(r@),
        r@.len() > 0,
{
    let i = random_index(8);
    let r = user_agent_nth(i);
    proof {
        assert(is_user_agent_text(r@)) by {
            assert(0 <= (i as int) && (i as int) < 8 && r@ == user_agent_at(i as int));
        }
        lemma_user_agent_nonempty(i as int);
    }
    r
}

} // verus!
