use vstd::prelude::*;

verus! {

/// `p[a..b]` holds no `|`.
pub open spec fn bar_free(p: Seq<char>, a: int, b: int) -> bool {
    forall|k: int| a <= k < b ==> p[k] != '|'
}

/// `p[s..e]` is one of the `|`-separated alternatives of `p`.
pub open spec fn is_alternative(p: Seq<char>, s: int, e: int) -> bool {
    &&& 0 <= s <= e <= p.len()
    &&& (s == 0 || p[s - 1] == '|')
    &&& (e == p.len() || p[e] == '|')
    &&& bar_free(p, s, e)
}

/// Some `|`-separated alternative of `pattern` is a prefix of `text`.
pub open spec fn matches_pattern(text: Seq<char>, pattern: Seq<char>) -> bool {
    exists|s: int, e: int|
        is_alternative(pattern, s, e) && #[trigger] pattern.subrange(s, e).is_prefix_of(text)
}

/// Whether `text` starts with one of the `|`-separated alternatives of `pattern`.
pub fn is_match(text: &str, pattern: &str) -> (r: bool)
    ensures
        r == matches_pattern(text@, pattern@),
{
    let n = pattern.unicode_len();
    let tn = text.unicode_len();
    let ghost p = pattern@;
    let ghost t = text@;
    let mut start: usize = 0;
    let mut i: usize = 0;
    let mut ok = true;
    while i < n
        invariant
            n == p.len(),
            tn == t.len(),
            p == pattern@,
            t == text@,
            start <= i <= n,
            start == 0 || p[start - 1] == '|',
            bar_free(p, start as int, i as int),
            ok == p.subrange(start as int, i as int).is_prefix_of(t),
            forall|s: int, e: int|
                is_alternative(p, s, e) && s < start ==> !#[trigger] p.subrange(s, e).is_prefix_of(
                    t,
                ),
        decreases n - i,
    {
        let c = pattern.get_char(i);
        if c == '|' {
            if ok {
                assert(is_alternative(p, start as int, i as int));
                return true;
            }
            assert forall|s: int, e: int|
                is_alternative(p, s, e) && s < i + 1 implies !#[trigger] p.subrange(
                    s,
                    e,
                ).is_prefix_of(t) by {
                if s >= start {
                    if s > start {
                        assert(p[s - 1] != '|');
                    }
                    assert(s == start);
                    if e < i {
                        assert(p[e] != '|');
                    }
                    if e > i {
                        assert(p[i as int] != '|');
                    }
                    assert(e == i);
                }
            }
            start = i + 1;
            ok = true;
            assert(p.subrange(start as int, start as int) =~= Seq::<char>::empty());
        } else {
            if ok {
                let j = i - start;
                if j >= tn || text.get_char(j) != c {
                    ok = false;
                    assert(!p.subrange(start as int, i + 1).is_prefix_of(t)) by {
                        if p.subrange(start as int, i + 1).is_prefix_of(t) {
                            assert(p.subrange(start as int, i + 1)[j as int] == t[j as int]);
                        }
                    }
                } else {
                    assert(p.subrange(start as int, i + 1) =~= t.subrange(0, (j + 1) as int));
                }
            } else {
                assert(!p.subrange(start as int, i + 1).is_prefix_of(t)) by {
                    if p.subrange(start as int, i + 1).is_prefix_of(t) {
                        assert(p.subrange(start as int, i as int) =~= t.subrange(
                            0,
                            (i - start) as int,
                        ));
                    }
                }
            }
        }
        i = i + 1;
    }
    assert(is_alternative(p, start as int, n as int));
    if !ok {
        assert forall|s: int, e: int|
            is_alternative(p, s, e) implies !#[trigger] p.subrange(s, e).is_prefix_of(t) by {
            if s >= start {
                if s > start {
                    assert(p[s - 1] != '|');
                }
                if e < n {
                    assert(p[e] != '|');
                }
            }
        }
    }
    ok
}

/// The icon for a weather description: the first rule whose pattern matches wins.
pub open spec fn emoji_for(d: Seq<char>) -> Option<Seq<char>> {
    if matches_pattern(d, "clear sky"@) {
        Some("☀️"@)
    } else if matches_pattern(d, "few clouds"@) {
        Some("⛅"@)
    } else if matches_pattern(d, "scattered clouds"@) {
        Some("☁️"@)
    } else if matches_pattern(d, "broken clouds|overcast clouds"@) {
        Some("☁️☁️"@)
    } else if matches_pattern(d, "thunderstorm"@) {
        Some("⛈"@)
    } else if matches_pattern(d, "snow|sleet"@) {
        Some("🌨"@)
    } else if matches_pattern(d, "drizzle|rain"@) {
        Some("🌧"@)
    } else if matches_pattern(d, "mist|smoke|haze|fog|sand|dust|ash|squalls"@) {
        Some("🌫"@)
    } else if matches_pattern(d, "tornado|hurricane|tropical storm"@) {
        Some("🌪"@)
    } else {
        None
    }
}

/// The icon that stands for a weather description, if any rule knows it.
pub fn get_emoji(description: &str) -> (r: Option<&'static str>)
    ensures
        r matches Some(e) ==> emoji_for(description@) == Some(e@),
        r is None ==> emoji_for(description@) is None,
{
    if is_match(description, "clear sky") {
        return Some("☀️");
    }
    if is_match(description, "few clouds") {
        return Some("⛅");
    }
    if is_match(description, "scattered clouds") {
        return Some("☁️");
    }
    if is_match(description, "broken clouds|overcast clouds") {
        return Some("☁️☁️");
    }
    if is_match(description, "thunderstorm") {
        return Some("⛈");
    }
    if is_match(description, "snow|sleet") {
        return Some("🌨");
    }
    if is_match(description, "drizzle|rain") {
        return Some("🌧");
    }
    if is_match(description, "mist|smoke|haze|fog|sand|dust|ash|squalls") {
        return Some("🌫");
    }
    if is_match(description, "tornado|hurricane|tropical storm") {
        return Some("🌪");
    }
    None
}

} // verus!
