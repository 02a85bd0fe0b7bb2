use vstd::prelude::*;
use crate::text::{
    chars_of, eq_ignore_ascii_case, eq_ignore_ascii_case_chars, find_char, index_of, lines, parse_u16,
    parse_u16_chars, split_lines, sub_chars, trim, trim_chars, views,
};

verus! {

/// The port that one line of a MySQL/MariaDB option file sets, if any: a
/// line that, trimmed, does not start with `#` or `;`, has a `=`, a key equal
/// to `port` ignoring ASCII case (trimmed), and a value (trimmed) that
/// parses as a `u16`.
pub open spec fn port_from_line(l: Seq<char>) -> Option<u16> {
    let t = trim(l);
    if t.len() > 0 && (t[0] == '#' || t[0] == ';') {
        None
    } else {
        let i = index_of(t, '=');
        if i < t.len() && eq_ignore_ascii_case(trim(t.take(i as int)), "port"@) {
            parse_u16(trim(t.skip(i + 1 as int)))
        } else {
            None
        }
    }
}

/// The port of the first line that sets one.
pub open spec fn port_in_lines(ls: Seq<Seq<char>>) -> Option<u16>
    decreases ls.len(),
{
    if ls.len() == 0 {
        None
    } else {
        match port_from_line(ls[0]) {
            Some(p) => Some(p),
            None => port_in_lines(ls.drop_first()),
        }
    }
}

/// The port that an option file's text sets, if any.
pub open spec fn spec_parse_port(content: Seq<char>) -> Option<u16> {
    port_in_lines(lines(content))
}

pub struct DatabaseConfig;

impl DatabaseConfig {
    /// See `port_from_line`.
    pub fn port_from_line(l: &Vec<char>) -> (res: Option<u16>)
        ensures
            res == port_from_line(l@),
    {
        let t = trim_chars(l);
        if t.len() > 0 && (t[0] == '#' || t[0] == ';') {
            return None;
        }
        let i = find_char(&t, '=');
        if i < t.len() {
            let key = trim_chars(&sub_chars(&t, 0, i));
            assert(t@.subrange(0, i as int) =~= t@.take(i as int));
            if eq_ignore_ascii_case_chars(&key, &chars_of("port")) {
                let val = trim_chars(&sub_chars(&t, i + 1, t.len()));
                assert(t@.subrange(i + 1, t@.len() as int) =~= t@.skip(i + 1 as int));
                return parse_u16_chars(&val);
            }
        }
        None
    }

    /// Extracts the port from the text of a MySQL/MariaDB option file: the
    /// value of the first `port = N` line, comments skipped.
    pub fn parse_port_from_content(content: &str) -> (res: Option<u16>)
        ensures
            res == spec_parse_port(content@),
    {
        let ls = split_lines(&chars_of(content));
        let mut i: usize = 0;
        assert(views(ls@).skip(0) =~= views(ls@));
        while i < ls.len()
            invariant
                i <= ls.len(),
                port_in_lines(views(ls@).skip(i as int)) == spec_parse_port(content@),
            decreases ls.len() - i,
        {
            let ghost rest = views(ls@).skip(i as int);
            assert(rest[0] == ls@[i as int]@);
            assert(rest.drop_first() =~= views(ls@).skip(i + 1));
            let p = Self::port_from_line(&ls[i]);
            if p.is_some() {
                return p;
            }
            i += 1;
        }
        assert(views(ls@).skip(ls.len() as int) =~= Seq::<Seq<char>>::empty());
        None
    }
}

} // verus!
