//! Scraping the two game pages.
//!
//! The pages are not a stable API: the server list and the session
//! variables are located by narrow anchored patterns (matched ignoring
//! ASCII case) rather than by parsing the whole page, so unrelated page
//! changes do not disturb the extraction, while missing data still
//! fails loudly with [`Error::NoDataFound`].

use vstd::prelude::*;

use crate::enums::Theme;
use crate::enums::spec_theme_code;
use crate::error::Error;
use crate::models::ServerData;
use crate::numbers::all_digits;
use crate::numbers::dec_digits;
use crate::numbers::format_u64;
use crate::numbers::is_digit_char;
use crate::text::ci_match_at;
use crate::text::find_ci;
use crate::text::find_ci_from;
use crate::text::lemma_find_ci_from;
use crate::text::match_at;
use crate::text::str_eq;

verus! {

/// The anchor that opens the server-list array.
pub open spec fn array_marker() -> Seq<char> {
    "[{\"translated_theme_name\":\""@
}

/// The anchor that opens one server-list entry, after the separating
/// comma.
pub open spec fn entry_marker() -> Seq<char> {
    "{\"translated_theme_name\":\""@
}

/// The delimiter between an entry's theme name and its server URL.
pub open spec fn name_end_marker() -> Seq<char> {
    "\",\"urlWs\":\""@
}

/// The delimiter between an entry's server URL and its subject id.
pub open spec fn url_end_marker() -> Seq<char> {
    "\",\"subject_id\":\""@
}

/// The delimiter that closes an entry.
pub open spec fn id_end_marker() -> Seq<char> {
    "\"}"@
}

/// `s` with every `\/` escape collapsed to `/`, as the page's JSON
/// writes URLs.
pub open spec fn unescape_slashes(s: Seq<char>) -> Seq<char>
    decreases s.len(),
{
    if s.len() >= 2 && s[0] == '\\' && s[1] == '/' {
        seq!['/'] + unescape_slashes(s.subrange(2, s.len() as int))
    } else if s.len() > 0 {
        seq![s[0]] + unescape_slashes(s.drop_first())
    } else {
        Seq::empty()
    }
}

/// The entries of the server list that starts at position `p` (just
/// after an entry's opening anchor): pairs of unescaped server URL and
/// subject id.  `None` when the list does not follow the anchored
/// shape through to its closing bracket.
pub open spec fn scrape_entries(s: Seq<char>, p: int) -> Option<Seq<(Seq<char>, Seq<char>)>>
    decreases s.len() - p,
{
    match find_ci_from(s, name_end_marker(), p) {
        None => None,
        Some(e1) => {
            let u = e1 + name_end_marker().len();
            match find_ci_from(s, url_end_marker(), u) {
                None => None,
                Some(e2) => {
                    let d = e2 + url_end_marker().len();
                    match find_ci_from(s, id_end_marker(), d) {
                        None => None,
                        Some(e3) => {
                            if !(d < e3 && all_digits(s.subrange(d, e3))) {
                                None
                            } else {
                                let url = unescape_slashes(s.subrange(u, e2));
                                let id = s.subrange(d, e3);
                                let after = e3 + 2;
                                if after < s.len() && s[after] == ']' {
                                    Some(seq![(url, id)])
                                } else if after < s.len() && s[after] == ','
                                    && ci_match_at(s, entry_marker(), after + 1) {
                                    let p2 = after + 1 + entry_marker().len();
                                    if p < p2 <= s.len() {
                                        match scrape_entries(s, p2) {
                                            None => None,
                                            Some(rest) => Some(seq![(url, id)] + rest),
                                        }
                                    } else {
                                        None
                                    }
                                } else {
                                    None
                                }
                            }
                        },
                    }
                },
            }
        },
    }
}

/// The server URL of the first entry carrying the wanted subject id.
pub open spec fn select_server(entries: Seq<(Seq<char>, Seq<char>)>, id: Seq<char>) -> Option<
    Seq<char>,
>
    decreases entries.len(),
{
    if entries.len() == 0 {
        None
    } else if entries[0].1 == id {
        Some(entries[0].0)
    } else {
        select_server(entries.drop_first(), id)
    }
}

/// What server discovery yields on a page: the URL of the first
/// server-list entry whose subject id is the requested theme's code.
pub open spec fn spec_find_server(html: Seq<char>, theme: Theme) -> Option<Seq<char>> {
    match find_ci_from(html, array_marker(), 0) {
        None => None,
        Some(a) => match scrape_entries(html, a + array_marker().len()) {
            None => None,
            Some(es) => select_server(es, dec_digits(spec_theme_code(theme) as nat)),
        },
    }
}

/// The views of scraped entries: unescaped URL and subject id.
pub open spec fn entry_views(es: Seq<ServerData>) -> Seq<(Seq<char>, Seq<char>)> {
    es.map_values(|sd: ServerData| (sd.url_ws@, sd.subject_id@))
}

/// Copies the characters of `s` in `lo..hi` into `out`, collapsing the
/// `\/` escapes.
fn append_unescaped(out: &mut String, s: &str, lo: usize, hi: usize)
    requires
        lo <= hi <= s@.len(),
    ensures
        final(out)@ == old(out)@ + unescape_slashes(s@.subrange(lo as int, hi as int)),
{
    let mut i: usize = lo;
    while i < hi
        invariant
            lo <= i <= hi <= s@.len(),
            out@ + unescape_slashes(s@.subrange(i as int, hi as int)) == old(out)@
                + unescape_slashes(s@.subrange(lo as int, hi as int)),
        decreases hi - i,
    {
        let ghost pre = out@;
        let ghost cur = s@.subrange(i as int, hi as int);
        let c = s.get_char(i);
        if c == '\\' && i + 1 < hi && s.get_char(i + 1) == '/' {
            proof {
                reveal_strlit("/");
                assert(cur.subrange(2, cur.len() as int) =~= s@.subrange(i + 2, hi as int));
                assert(cur[0] == '\\' && cur[1] == '/');
            }
            out.append("/");
            proof {
                assert(out@ =~= pre + seq!['/']);
                assert(pre + unescape_slashes(cur) =~= (pre + seq!['/']) + unescape_slashes(
                    s@.subrange(i + 2, hi as int),
                ));
            }
            i = i + 2;
        } else {
            let piece = s.substring_char(i, i + 1);
            proof {
                assert(cur.drop_first() =~= s@.subrange(i + 1, hi as int));
                assert(piece@ =~= seq![cur[0]]);
                if cur.len() >= 2 && cur[0] == '\\' && cur[1] == '/' {
                    assert(s@[i as int] == '\\' && s@[i + 1] == '/');
                    assert(false);
                }
            }
            out.append(piece);
            proof {
                assert(pre + unescape_slashes(cur) =~= (pre + seq![cur[0]]) + unescape_slashes(
                    s@.subrange(i + 1, hi as int),
                ));
                assert(out@ =~= pre + seq![cur[0]]);
            }
            i = i + 1;
        }
    }
    proof {
        assert(s@.subrange(hi as int, hi as int) =~= Seq::<char>::empty());
        assert(out@ =~= old(out)@ + unescape_slashes(s@.subrange(lo as int, hi as int)));
    }
}

/// Every character of `s` in `lo..hi` is a decimal digit.
fn digits_in_range(s: &str, lo: usize, hi: usize) -> (r: bool)
    requires
        lo <= hi <= s@.len(),
    ensures
        r == all_digits(s@.subrange(lo as int, hi as int)),
{
    let mut i: usize = lo;
    while i < hi
        invariant
            lo <= i <= hi <= s@.len(),
            forall|j: int| lo <= j < i ==> crate::numbers::is_digit(s@[j]),
        decreases hi - i,
    {
        if !is_digit_char(s.get_char(i)) {
            proof {
                assert(s@.subrange(lo as int, hi as int)[i - lo] == s@[i as int]);
            }
            return false;
        }
        i = i + 1;
    }
    proof {
        assert forall|j: int| 0 <= j < hi - lo implies crate::numbers::is_digit(
            #[trigger] s@.subrange(lo as int, hi as int)[j],
        ) by {
            assert(s@.subrange(lo as int, hi as int)[j] == s@[j + lo]);
        }
    }
    true
}

/// No character of `s` in `lo..hi` is a line break.
pub open spec fn line_free(s: Seq<char>, lo: int, hi: int) -> bool {
    forall|i: int| lo <= i < hi ==> s[i] != '\n'
}

fn check_line_free(s: &str, lo: usize, hi: usize) -> (r: bool)
    requires
        lo <= hi <= s@.len(),
    ensures
        r == line_free(s@, lo as int, hi as int),
{
    let mut i: usize = lo;
    while i < hi
        invariant
            lo <= i <= hi <= s@.len(),
            forall|j: int| lo <= j < i ==> s@[j] != '\n',
        decreases hi - i,
    {
        if s.get_char(i) == '\n' {
            return false;
        }
        i = i + 1;
    }
    true
}

/// Extracts the game-server URL for `theme` from the home page: the
/// first entry of the anchored server list whose subject id equals the
/// theme's code.
pub fn find_server_entry(html: &str, theme: Theme) -> (r: Result<String, Error>)
    ensures
        match spec_find_server(html@, theme) {
            Some(url) => r matches Ok(u) && u@ == url,
            None => r == Err::<String, Error>(Error::NoDataFound),
        },
{
    let n = html.unicode_len();
    proof {
        reveal_strlit("\"}");
    }
    let a = match find_ci(html, "[{\"translated_theme_name\":\"", 0) {
        Some(a) => a,
        None => {
            return Err(Error::NoDataFound);
        },
    };
    proof {
        lemma_find_ci_from(html@, array_marker(), 0);
    }
    let mlen = "[{\"translated_theme_name\":\"".unicode_len();
    let ghost p0 = a + mlen;
    let mut p: usize = a + mlen;
    let mut entries: Vec<ServerData> = Vec::new();
    proof {
        assert(entry_views(entries@) =~= Seq::<(Seq<char>, Seq<char>)>::empty());
        match scrape_entries(html@, p0 as int) {
            Some(rest) => {
                assert(entry_views(entries@) + rest =~= rest);
            },
            None => {},
        }
    }
    let mut done = false;
    while !done
        invariant
            n == html@.len(),
            p <= n,
            mlen == array_marker().len(),
            find_ci_from(html@, array_marker(), 0) == Some(a as int),
            p0 == a + mlen,
            !done ==> scrape_entries(html@, p0 as int) == (match scrape_entries(html@, p as int) {
                None => None::<Seq<(Seq<char>, Seq<char>)>>,
                Some(rest) => Some(entry_views(entries@) + rest),
            }),
            done ==> scrape_entries(html@, p0 as int) == Some(entry_views(entries@)),
        decreases n - p, (if done {
            0int
        } else {
            1int
        }),
    {
        let e1 = match find_ci(html, "\",\"urlWs\":\"", p) {
            Some(i) => i,
            None => {
                proof {
                    assert(scrape_entries(html@, p as int) is None);
                }
                return Err(Error::NoDataFound);
            },
        };
        proof {
            lemma_find_ci_from(html@, name_end_marker(), p as int);
        }
        let u = e1 + "\",\"urlWs\":\"".unicode_len();
        let e2 = match find_ci(html, "\",\"subject_id\":\"", u) {
            Some(i) => i,
            None => {
                proof {
                    assert(scrape_entries(html@, p as int) is None);
                }
                return Err(Error::NoDataFound);
            },
        };
        proof {
            lemma_find_ci_from(html@, url_end_marker(), u as int);
        }
        let d = e2 + "\",\"subject_id\":\"".unicode_len();
        let e3 = match find_ci(html, "\"}", d) {
            Some(i) => i,
            None => {
                proof {
                    assert(scrape_entries(html@, p as int) is None);
                }
                return Err(Error::NoDataFound);
            },
        };
        proof {
            reveal_strlit("\"}");
            lemma_find_ci_from(html@, id_end_marker(), d as int);
        }
        if !(d < e3 && digits_in_range(html, d, e3)) {
            proof {
                assert(scrape_entries(html@, p as int) is None);
            }
            return Err(Error::NoDataFound);
        }
        let mut url = String::new();
        append_unescaped(&mut url, html, u, e2);
        let id = String::from_str(html.substring_char(d, e3));
        let ghost e = (unescape_slashes(html@.subrange(u as int, e2 as int)), html@.subrange(
            d as int,
            e3 as int,
        ));
        let ghost old_entries = entries@;
        proof {
            assert(url@ =~= e.0);
        }
        entries.push(ServerData { url_ws: url, subject_id: id });
        proof {
            assert(entry_views(entries@) =~= entry_views(old_entries) + seq![e]);
        }
        let after = e3 + 2;
        if after < n && html.get_char(after) == ']' {
            done = true;
            proof {
                assert(scrape_entries(html@, p as int) == Some(seq![e]));
                assert(entry_views(old_entries) + seq![e] =~= entry_views(entries@));
            }
        } else if after < n && html.get_char(after) == ',' && match_at(
            html,
            "{\"translated_theme_name\":\"",
            after + 1,
        ) {
            let p2 = after + 1 + "{\"translated_theme_name\":\"".unicode_len();
            proof {
                assert(p < p2 <= html@.len());
                match scrape_entries(html@, p2 as int) {
                    Some(rest) => {
                        assert(scrape_entries(html@, p as int) == Some(seq![e] + rest));
                        assert(entry_views(old_entries) + (seq![e] + rest) =~= entry_views(
                            entries@,
                        ) + rest);
                    },
                    None => {
                        assert(scrape_entries(html@, p as int) is None);
                    },
                }
            }
            p = p2;
        } else {
            proof {
                assert(scrape_entries(html@, p as int) is None);
            }
            return Err(Error::NoDataFound);
        }
    }
    // the list is scraped; pick the entry for the requested theme
    let target = format_u64(theme.code());
    let ghost es = entry_views(entries@);
    proof {
        assert(es.skip(0) =~= es);
    }
    let mut j: usize = 0;
    while j < entries.len()
        invariant
            es == entry_views(entries@),
            j <= entries.len(),
            es.len() == entries@.len(),
            select_server(es, dec_digits(spec_theme_code(theme) as nat)) == select_server(
                es.skip(j as int),
                dec_digits(spec_theme_code(theme) as nat),
            ),
            target@ == dec_digits(spec_theme_code(theme) as nat),
            scrape_entries(html@, p0 as int) == Some(es),
            find_ci_from(html@, array_marker(), 0) == Some(a as int),
            p0 == a + array_marker().len(),
        decreases entries.len() - j,
    {
        proof {
            assert(es.skip(j as int)[0] == es[j as int]);
            assert(es[j as int] == (entries@[j as int].url_ws@, entries@[j as int].subject_id@));
        }
        if str_eq(entries[j].subject_id.as_str(), target.as_str()) {
            proof {
                assert(select_server(es.skip(j as int), dec_digits(spec_theme_code(theme) as nat))
                    == Some(es[j as int].0));
            }
            let url = entries[j].url_ws.clone();
            return Ok(url);
        }
        proof {
            assert(es.skip(j as int).drop_first() =~= es.skip(j + 1));
        }
        j = j + 1;
    }
    proof {
        assert(es.skip(entries@.len() as int) =~= Seq::<(Seq<char>, Seq<char>)>::empty());
    }
    Err(Error::NoDataFound)
}

/// The anchor of the extension-session variable.
pub open spec fn uid_marker() -> Seq<char> {
    "var uid_ext_session = '"@
}

/// The anchor of the front-address variable.
pub open spec fn front_marker() -> Seq<char> {
    "var frontaddr = '"@
}

/// The closing quote-semicolon of an inline assignment.
pub open spec fn assign_end_marker() -> Seq<char> {
    "';"@
}

/// What session-variable discovery yields on a page: the values of the
/// two inline-script assignments, which must sit on consecutive lines.
pub open spec fn spec_session_vars(s: Seq<char>) -> Option<(Seq<char>, Seq<char>)> {
    match find_ci_from(s, uid_marker(), 0) {
        None => None,
        Some(m1) => {
            let a = m1 + uid_marker().len();
            match find_ci_from(s, assign_end_marker(), a) {
                None => None,
                Some(e1) => {
                    if !(line_free(s, a, e1) && e1 + 2 < s.len() && s[e1 + 2] == '\n') {
                        None
                    } else {
                        match find_ci_from(s, front_marker(), e1 + 3) {
                            None => None,
                            Some(m2) => {
                                let b = m2 + front_marker().len();
                                if !line_free(s, e1 + 3, m2) {
                                    None
                                } else {
                                    match find_ci_from(s, assign_end_marker(), b) {
                                        None => None,
                                        Some(e2) => {
                                            if line_free(s, b, e2) {
                                                Some((s.subrange(a, e1), s.subrange(b, e2)))
                                            } else {
                                                None
                                            }
                                        },
                                    }
                                }
                            },
                        }
                    }
                },
            }
        },
    }
}

/// Extracts the extension session id and the front address from the
/// game page's inline script.
pub fn find_session_vars(html: &str) -> (r: Result<(String, String), Error>)
    ensures
        match spec_session_vars(html@) {
            Some(vars) => r matches Ok(v) && v.0@ == vars.0 && v.1@ == vars.1,
            None => r == Err::<(String, String), Error>(Error::NoDataFound),
        },
{
    let n = html.unicode_len();
    proof {
        reveal_strlit("';");
    }
    let m1 = match find_ci(html, "var uid_ext_session = '", 0) {
        Some(i) => i,
        None => {
            return Err(Error::NoDataFound);
        },
    };
    proof {
        lemma_find_ci_from(html@, uid_marker(), 0);
    }
    let a = m1 + "var uid_ext_session = '".unicode_len();
    let e1 = match find_ci(html, "';", a) {
        Some(i) => i,
        None => {
            return Err(Error::NoDataFound);
        },
    };
    proof {
        lemma_find_ci_from(html@, assign_end_marker(), a as int);
    }
    if !(check_line_free(html, a, e1) && e1 + 2 < n && html.get_char(e1 + 2) == '\n') {
        return Err(Error::NoDataFound);
    }
    let m2 = match find_ci(html, "var frontaddr = '", e1 + 3) {
        Some(i) => i,
        None => {
            return Err(Error::NoDataFound);
        },
    };
    proof {
        lemma_find_ci_from(html@, front_marker(), e1 + 3);
    }
    let b = m2 + "var frontaddr = '".unicode_len();
    if !check_line_free(html, e1 + 3, m2) {
        return Err(Error::NoDataFound);
    }
    let e2 = match find_ci(html, "';", b) {
        Some(i) => i,
        None => {
            return Err(Error::NoDataFound);
        },
    };
    proof {
        lemma_find_ci_from(html@, assign_end_marker(), b as int);
    }
    if !check_line_free(html, b, e2) {
        return Err(Error::NoDataFound);
    }
    let uid = String::from_str(html.substring_char(a, e1));
    let front = String::from_str(html.substring_char(b, e2));
    Ok((uid, front))
}

} // verus!
