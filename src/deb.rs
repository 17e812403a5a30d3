//! The control file of a Debian package.
use vstd::prelude::*;

use crate::parse::{
    char_views, lines, parse_unsigned, unsigned_of, pieces_from, split_pieces, trim, trim_chars,
};
use crate::text::{chars_of, dec, join, push_dec, push_join, push_str, string_of, views};

verus! {

/// Fields of a Debian package's control file.
#[derive(Clone, Debug)]
pub struct DebControl {
    pub package: String,
    pub source: String,
    pub version: String,
    pub architecture: String,
    pub maintainer: String,
    pub depends: Vec<String>,
    pub conflicts: Vec<String>,
    pub section: String,
    pub priority: String,
    /// Installed size in kibibytes.
    pub installed_size: usize,
    pub description: String,
}

impl DebControl {
    /// One `Field: value` line per field, in the order of the struct; list fields are
    /// joined by `, `.
    pub open spec fn text(self) -> Seq<char> {
        "Package: "@ + self.package@ + "\n"@ + "Source: "@ + self.source@ + "\n"@ + "Version: "@
            + self.version@ + "\n"@ + "Architecture: "@ + self.architecture@ + "\n"@
            + "Maintainer: "@ + self.maintainer@ + "\n"@ + "Depends: "@ + join(
            views(self.depends@),
            ", "@,
        ) + "\n"@ + "Conflicts: "@ + join(views(self.conflicts@), ", "@) + "\n"@ + "Section: "@
            + self.section@ + "\n"@ + "Priority: "@ + self.priority@ + "\n"@ + "Installed-Size: "@
            + dec(self.installed_size as nat) + "\n"@ + "Description: "@ + self.description@
            + "\n"@
    }

    /// Renders the control file.
    pub fn to_string(&self) -> (r: String)
        ensures
            r@ == self.text(),
    {
        let mut out: Vec<char> = Vec::new();
        push_str(&mut out, "Package: ");
        push_str(&mut out, self.package.as_str());
        push_str(&mut out, "\n");
        push_str(&mut out, "Source: ");
        push_str(&mut out, self.source.as_str());
        push_str(&mut out, "\n");
        push_str(&mut out, "Version: ");
        push_str(&mut out, self.version.as_str());
        push_str(&mut out, "\n");
        push_str(&mut out, "Architecture: ");
        push_str(&mut out, self.architecture.as_str());
        push_str(&mut out, "\n");
        push_str(&mut out, "Maintainer: ");
        push_str(&mut out, self.maintainer.as_str());
        push_str(&mut out, "\n");
        push_str(&mut out, "Depends: ");
        push_join(&mut out, &self.depends, ", ");
        push_str(&mut out, "\n");
        push_str(&mut out, "Conflicts: ");
        push_join(&mut out, &self.conflicts, ", ");
        push_str(&mut out, "\n");
        push_str(&mut out, "Section: ");
        push_str(&mut out, self.section.as_str());
        push_str(&mut out, "\n");
        push_str(&mut out, "Priority: ");
        push_str(&mut out, self.priority.as_str());
        push_str(&mut out, "\n");
        push_str(&mut out, "Installed-Size: ");
        push_dec(&mut out, self.installed_size as u64);
        push_str(&mut out, "\n");
        push_str(&mut out, "Description: ");
        push_str(&mut out, self.description.as_str());
        push_str(&mut out, "\n");
        assert(out@ =~= self.text());
        string_of(&out)
    }

    pub fn new(
        package: String,
        source: String,
        version: String,
        architecture: String,
        maintainer: String,
        depends: Vec<String>,
        conflicts: Vec<String>,
        section: String,
        priority: String,
        installed_size: usize,
        description: String,
    ) -> (r: Self)
        ensures
            r == (DebControl {
                package,
                source,
                version,
                architecture,
                maintainer,
                depends,
                conflicts,
                section,
                priority,
                installed_size,
                description,
            }),
    {
        DebControl {
            package,
            source,
            version,
            architecture,
            maintainer,
            depends,
            conflicts,
            section,
            priority,
            installed_size,
            description,
        }
    }
}

/// The fields of a control file as plain values.
pub struct DebModel {
    pub package: Seq<char>,
    pub source: Seq<char>,
    pub version: Seq<char>,
    pub architecture: Seq<char>,
    pub maintainer: Seq<char>,
    pub depends: Seq<Seq<char>>,
    pub conflicts: Seq<Seq<char>>,
    pub section: Seq<char>,
    pub priority: Seq<char>,
    pub installed_size: nat,
    pub description: Seq<char>,
}

/// Whether `line` begins with `p`.
pub open spec fn starts_with(line: Seq<char>, p: Seq<char>) -> bool {
    p.len() <= line.len() && line.subrange(0, p.len() as int) == p
}

/// The value of a `Field: value` line: the text between its first and second colon,
/// without surrounding whitespace.
pub open spec fn field_value(line: Seq<char>) -> Seq<char> {
    let p = pieces_from(line, 0, Seq::empty(), Some(':'));
    if p.len() >= 2 {
        trim(p[1])
    } else {
        Seq::empty()
    }
}

/// The comma-separated items of a list value, each without surrounding whitespace.
pub open spec fn list_items(v: Seq<char>) -> Seq<Seq<char>> {
    pieces_from(v, 0, Seq::empty(), Some(',')).map_values(|s: Seq<char>| trim(s))
}

/// A model with every field empty.
pub open spec fn empty_model() -> DebModel {
    DebModel {
        package: Seq::empty(),
        source: Seq::empty(),
        version: Seq::empty(),
        architecture: Seq::empty(),
        maintainer: Seq::empty(),
        depends: Seq::empty(),
        conflicts: Seq::empty(),
        section: Seq::empty(),
        priority: Seq::empty(),
        installed_size: 0,
        description: Seq::empty(),
    }
}

/// The model after reading one line; a line of no known field changes nothing, and an
/// unreadable installed size fails.
pub open spec fn apply_line(m: DebModel, line: Seq<char>) -> Option<DebModel> {
    let v = field_value(line);
    if starts_with(line, "Package:"@) {
        Some(DebModel { package: v, ..m })
    } else if starts_with(line, "Source:"@) {
        Some(DebModel { source: v, ..m })
    } else if starts_with(line, "Version:"@) {
        Some(DebModel { version: v, ..m })
    } else if starts_with(line, "Architecture:"@) {
        Some(DebModel { architecture: v, ..m })
    } else if starts_with(line, "Maintainer:"@) {
        Some(DebModel { maintainer: v, ..m })
    } else if starts_with(line, "Depends:"@) {
        Some(DebModel { depends: list_items(v), ..m })
    } else if starts_with(line, "Conflicts:"@) {
        Some(DebModel { conflicts: list_items(v), ..m })
    } else if starts_with(line, "Section:"@) {
        Some(DebModel { section: v, ..m })
    } else if starts_with(line, "Priority:"@) {
        Some(DebModel { priority: v, ..m })
    } else if starts_with(line, "Installed-Size:"@) {
        match unsigned_of(v, usize::MAX as nat) {
            Some(n) => Some(DebModel { installed_size: n, ..m }),
            None => None,
        }
    } else if starts_with(line, "Description:"@) {
        Some(DebModel { description: v, ..m })
    } else {
        Some(m)
    }
}

/// The model of a control file's lines, read in order; later lines win.
pub open spec fn control_of(ls: Seq<Seq<char>>) -> Option<DebModel>
    decreases ls.len(),
{
    if ls.len() == 0 {
        Some(empty_model())
    } else {
        match control_of(ls.drop_last()) {
            Some(m) => apply_line(m, ls.last()),
            None => None,
        }
    }
}

fn starts_with_lit(line: &Vec<char>, p: &str) -> (r: bool)
    ensures
        r == starts_with(line@, p@),
{
    let n = p.unicode_len();
    if n > line.len() {
        return false;
    }
    let mut i: usize = 0;
    while i < n
        invariant
            n == p@.len() <= line@.len(),
            i <= n,
            forall|k: int| 0 <= k < i ==> line@[k] == p@[k],
        decreases n - i,
    {
        if line[i] != p.get_char(i) {
            assert(line@.subrange(0, n as int)[i as int] != p@[i as int]);
            return false;
        }
        i = i + 1;
    }
    assert(line@.subrange(0, n as int) =~= p@);
    true
}

fn value_of(line: &Vec<char>) -> (r: Vec<char>)
    ensures
        r@ == field_value(line@),
{
    let p = split_pieces(line, Some(':'));
    if p.len() >= 2 {
        trim_chars(&p[1])
    } else {
        Vec::new()
    }
}

fn items_of(v: &Vec<char>) -> (r: Vec<String>)
    ensures
        views(r@) == list_items(v@),
{
    let p = split_pieces(v, Some(','));
    let ghost ps = char_views(p@);
    let mut r: Vec<String> = Vec::new();
    let mut i: usize = 0;
    while i < p.len()
        invariant
            i <= p@.len(),
            ps == char_views(p@),
            ps == pieces_from(v@, 0, Seq::empty(), Some(',')),
            views(r@) =~= ps.subrange(0, i as int).map_values(|s: Seq<char>| trim(s)),
        decreases p@.len() - i,
    {
        let t = trim_chars(&p[i]);
        let ghost prev = r@;
        r.push(string_of(&t));
        assert(views(r@) =~= views(prev).push(trim(ps[i as int])));
        assert(ps.subrange(0, i + 1).map_values(|s: Seq<char>| trim(s)) =~= ps.subrange(
            0,
            i as int,
        ).map_values(|s: Seq<char>| trim(s)).push(trim(ps[i as int])));
        i = i + 1;
    }
    assert(ps.subrange(0, p@.len() as int) =~= ps);
    r
}

impl DebControl {
    pub open spec fn model(self) -> DebModel {
        DebModel {
            package: self.package@,
            source: self.source@,
            version: self.version@,
            architecture: self.architecture@,
            maintainer: self.maintainer@,
            depends: views(self.depends@),
            conflicts: views(self.conflicts@),
            section: self.section@,
            priority: self.priority@,
            installed_size: self.installed_size as nat,
            description: self.description@,
        }
    }

    /// Reads a control file's text: `Field: value` lines in any order, later lines
    /// winning; lines of other fields are ignored. Fails when an installed size is not a
    /// number.
    pub fn from_contents(contents: &str) -> (r: Result<DebControl, crate::xl::ParseError>)
        ensures
            match control_of(lines(contents@)) {
                Some(m) => r matches Ok(d) && d.model() == m,
                None => r matches Err(e) && e == crate::xl::ParseError::InvalidNumber,
            },
    {
        let cs = chars_of(contents);
        let ls = split_pieces(&cs, Some('\n'));
        let ghost all = char_views(ls@);
        let mut d = DebControl {
            package: String::new(),
            source: String::new(),
            version: String::new(),
            architecture: String::new(),
            maintainer: String::new(),
            depends: Vec::new(),
            conflicts: Vec::new(),
            section: String::new(),
            priority: String::new(),
            installed_size: 0,
            description: String::new(),
        };
        assert(views(d.depends@) =~= Seq::<Seq<char>>::empty());
        assert(views(d.conflicts@) =~= Seq::<Seq<char>>::empty());
        assert(d.model() == empty_model());
        let mut i: usize = 0;
        while i < ls.len()
            invariant
                i <= ls@.len(),
                all == char_views(ls@),
                all == lines(contents@),
                control_of(all.subrange(0, i as int)) == Some(d.model()),
            decreases ls@.len() - i,
        {
            let line = &ls[i];
            assert(all.subrange(0, i + 1).drop_last() =~= all.subrange(0, i as int));
            assert(all.subrange(0, i + 1).last() == line@);
            let ghost m = d.model();
            let v = value_of(line);
            if starts_with_lit(line, "Package:") {
                d.package = string_of(&v);
            } else if starts_with_lit(line, "Source:") {
                d.source = string_of(&v);
            } else if starts_with_lit(line, "Version:") {
                d.version = string_of(&v);
            } else if starts_with_lit(line, "Architecture:") {
                d.architecture = string_of(&v);
            } else if starts_with_lit(line, "Maintainer:") {
                d.maintainer = string_of(&v);
            } else if starts_with_lit(line, "Depends:") {
                d.depends = items_of(&v);
            } else if starts_with_lit(line, "Conflicts:") {
                d.conflicts = items_of(&v);
            } else if starts_with_lit(line, "Section:") {
                d.section = string_of(&v);
            } else if starts_with_lit(line, "Priority:") {
                d.priority = string_of(&v);
            } else if starts_with_lit(line, "Installed-Size:") {
                let n = v.len();
                assert(v@.subrange(0, n as int) =~= v@);
                match parse_unsigned(&v, 0, n, usize::MAX as u64) {
                    Some(x) => {
                        d.installed_size = x as usize;
                    },
                    None => {
                        proof {
                            lemma_control_fails(all, i as int + 1);
                        }
                        return Err(crate::xl::ParseError::InvalidNumber);
                    },
                }
            } else if starts_with_lit(line, "Description:") {
                d.description = string_of(&v);
            }
            assert(apply_line(m, line@) == Some(d.model()));
            i = i + 1;
        }
        assert(all.subrange(0, ls@.len() as int) =~= all);
        Ok(d)
    }
}

proof fn lemma_control_fails(ls: Seq<Seq<char>>, i: int)
    requires
        0 <= i <= ls.len(),
        control_of(ls.subrange(0, i)) is None,
    ensures
        control_of(ls) is None,
    decreases ls.len() - i,
{
    if i < ls.len() {
        assert(ls.subrange(0, i + 1).drop_last() =~= ls.subrange(0, i));
        lemma_control_fails(ls, i + 1);
    } else {
        assert(ls.subrange(0, i) =~= ls);
    }
}

} // verus!
