//! Parser for Hyprland keybinding configurations.
use vstd::prelude::*;
use crate::text::{trim_chars, trim_start_chars, trimmed, trim_start_seq, splitn_chars, splitn_of, lines_chars, lines_of, starts_with_seq, starts_with_chars, copy_range, chars_of, string_of, str_eq, to_upper, to_lower, upper_of, lower_of, words_chars, words_of, views};
use vstd::string::*;

verus! {

/// A single modifier key.
#[derive(Debug, Clone, Copy, PartialEq, Eq, Hash, Structural)]
pub enum Modifier {
    Super,
    Shift,
    Ctrl,
    Alt,
}

/// The modifier an upper-cased name stands for.
pub open spec fn modifier_named(u: Seq<char>) -> Option<Modifier> {
    if u == "SUPER"@ || u == "$MAINMOD"@ || u == "MOD"@ {
        Some(Modifier::Super)
    } else if u == "SHIFT"@ {
        Some(Modifier::Shift)
    } else if u == "CTRL"@ || u == "CONTROL"@ {
        Some(Modifier::Ctrl)
    } else if u == "ALT"@ {
        Some(Modifier::Alt)
    } else {
        None
    }
}

impl Modifier {
    /// The modifier a name stands for, in any letter case.
    pub fn parse(s: &str) -> (r: Option<Modifier>)
        ensures
            r == modifier_named(upper_of(s@)),
    {
        let u = to_upper(s);
        let t = u.as_str();
        if str_eq(t, "SUPER") || str_eq(t, "$MAINMOD") || str_eq(t, "MOD") {
            Some(Modifier::Super)
        } else if str_eq(t, "SHIFT") {
            Some(Modifier::Shift)
        } else if str_eq(t, "CTRL") || str_eq(t, "CONTROL") {
            Some(Modifier::Ctrl)
        } else if str_eq(t, "ALT") {
            Some(Modifier::Alt)
        } else {
            None
        }
    }

    pub open spec fn name(self) -> Seq<char> {
        match self {
            Modifier::Super => "SUPER"@,
            Modifier::Shift => "SHIFT"@,
            Modifier::Ctrl => "CTRL"@,
            Modifier::Alt => "ALT"@,
        }
    }

    /// The canonical upper-case name.
    pub fn as_str(&self) -> (r: &'static str)
        ensures
            r@ == self.name(),
    {
        match self {
            Modifier::Super => "SUPER",
            Modifier::Shift => "SHIFT",
            Modifier::Ctrl => "CTRL",
            Modifier::Alt => "ALT",
        }
    }
}

/// The modifiers named among `names`, in order; unknown names are skipped.
pub open spec fn parsed_modifiers(names: Seq<Seq<char>>) -> Seq<Modifier>
    decreases names.len(),
{
    if names.len() == 0 {
        Seq::empty()
    } else {
        let rest = parsed_modifiers(names.drop_last());
        match modifier_named(upper_of(names.last())) {
            Some(m) => rest.push(m),
            None => rest,
        }
    }
}

/// Modifier names joined by single spaces.
pub open spec fn modifiers_text(ms: Seq<Modifier>) -> Seq<char>
    decreases ms.len(),
{
    if ms.len() == 0 {
        Seq::empty()
    } else if ms.len() == 1 {
        ms[0].name()
    } else {
        modifiers_text(ms.drop_last()) + " "@ + ms.last().name()
    }
}

/// Collection of modifier keys.
#[derive(Debug, Clone, PartialEq, Eq, Default)]
pub struct Modifiers(pub Vec<Modifier>);

impl Modifiers {
    pub open spec fn view(&self) -> Seq<Modifier> {
        self.0@
    }

    /// The modifiers among the white-space separated names of `s`.
    pub fn parse(s: &str) -> (r: Self)
        ensures
            r.view() == parsed_modifiers(words_of(s@)),
    {
        let c = chars_of(s);
        let words = words_chars(c.as_slice());
        let mut mods: Vec<Modifier> = Vec::new();
        let mut i: usize = 0;
        while i < words.len()
            invariant
                i <= words@.len(),
                views(words@) == words_of(s@),
                mods@ == parsed_modifiers(views(words@).subrange(0, i as int)),
            decreases words@.len() - i,
        {
            let w = string_of(words[i].as_slice());
            let m = Modifier::parse(w.as_str());
            proof {
                assert(views(words@).subrange(0, i + 1).drop_last() =~= views(words@).subrange(0, i as int));
                assert(views(words@)[i as int] == words@[i as int]@);
            }
            match m {
                Some(m) => mods.push(m),
                None => {},
            }
            i = i + 1;
        }
        assert(views(words@).subrange(0, words@.len() as int) =~= views(words@));
        Modifiers(mods)
    }

    /// The modifiers among `strs`, in order.
    pub fn from_strs(strs: &[&str]) -> (r: Self)
        ensures
            r.view() == parsed_modifiers(strs@.map_values(|x: &str| x@)),
    {
        let mut mods: Vec<Modifier> = Vec::new();
        let mut i: usize = 0;
        while i < strs.len()
            invariant
                i <= strs@.len(),
                mods@ == parsed_modifiers(strs@.map_values(|x: &str| x@).subrange(0, i as int)),
            decreases strs@.len() - i,
        {
            let m = Modifier::parse(strs[i]);
            proof {
                let names = strs@.map_values(|x: &str| x@);
                assert(names.subrange(0, i + 1).drop_last() =~= names.subrange(0, i as int));
            }
            match m {
                Some(m) => mods.push(m),
                None => {},
            }
            i = i + 1;
        }
        assert(strs@.map_values(|x: &str| x@).subrange(0, strs@.len() as int) =~= strs@.map_values(|x: &str| x@));
        Modifiers(mods)
    }

    pub fn contains(&self, modifier: &Modifier) -> (r: bool)
        ensures
            r == self.view().contains(*modifier),
    {
        let mut i: usize = 0;
        while i < self.0.len()
            invariant
                i <= self.0@.len(),
                forall|k: int| 0 <= k < i ==> self.0@[k] != *modifier,
            decreases self.0@.len() - i,
        {
            if self.0[i] == *modifier {
                return true;
            }
            i = i + 1;
        }
        false
    }

    pub fn is_empty(&self) -> (r: bool)
        ensures
            r == (self.view().len() == 0),
    {
        self.0.len() == 0
    }

    /// The names separated by single spaces, e.g. `SUPER SHIFT`.
    pub fn to_string(&self) -> (r: String)
        ensures
            r@ == modifiers_text(self.view()),
    {
        let mut s = String::new();
        let mut i: usize = 0;
        while i < self.0.len()
            invariant
                i <= self.0@.len(),
                s@ == modifiers_text(self.0@.subrange(0, i as int)),
            decreases self.0@.len() - i,
        {
            proof {
                reveal_strlit(" ");
                assert(self.0@.subrange(0, i + 1).drop_last() =~= self.0@.subrange(0, i as int));
                assert(self.0@.subrange(0, i + 1).last() == self.0@[i as int]);
            }
            if i > 0 {
                s.append(" ");
            }
            s.append(self.0[i].as_str());
            proof {
                if i == 0 {
                    assert(s@ =~= modifiers_text(self.0@.subrange(0, 1)));
                } else {
                    assert(s@ =~= modifiers_text(self.0@.subrange(0, i + 1)));
                }
            }
            i = i + 1;
        }
        assert(self.0@.subrange(0, self.0@.len() as int) =~= self.0@);
        s
    }
}

/// Source location of a binding.
#[derive(Debug, Clone, PartialEq, Eq)]
pub struct BindingSource {
    pub file: String,
    pub line: usize,
}

/// Type of Hyprland bind directive.
#[derive(Debug, Clone, PartialEq, Eq)]
pub enum BindType {
    /// Standard bind
    Bind,
    /// Bind with description (shows in keybind viewer)
    Bindd,
    /// Bind that triggers on key release
    Bindr,
    /// Bind that works when screen is locked
    Bindl,
    /// Bind with description and locked
    Bindld,
    /// Other/unknown bind type, in lower case
    Other(String),
}

/// The directive a lower-cased name stands for; `None` for an unknown one.
pub open spec fn known_bind_type(l: Seq<char>) -> Option<BindType> {
    if l == "bind"@ {
        Some(BindType::Bind)
    } else if l == "bindd"@ {
        Some(BindType::Bindd)
    } else if l == "bindr"@ {
        Some(BindType::Bindr)
    } else if l == "bindl"@ {
        Some(BindType::Bindl)
    } else if l == "bindld"@ {
        Some(BindType::Bindld)
    } else {
        None
    }
}

impl BindType {
    pub fn from_str(s: &str) -> (r: Self)
        ensures
            match known_bind_type(lower_of(s@)) {
                Some(t) => r == t,
                None => r is Other && r->Other_0@ == lower_of(s@),
            },
    {
        let l = to_lower(s);
        let t = l.as_str();
        if str_eq(t, "bind") {
            BindType::Bind
        } else if str_eq(t, "bindd") {
            BindType::Bindd
        } else if str_eq(t, "bindr") {
            BindType::Bindr
        } else if str_eq(t, "bindl") {
            BindType::Bindl
        } else if str_eq(t, "bindld") {
            BindType::Bindld
        } else {
            BindType::Other(l)
        }
    }

    pub open spec fn text(&self) -> Seq<char> {
        match self {
            BindType::Bind => "bind"@,
            BindType::Bindd => "bindd"@,
            BindType::Bindr => "bindr"@,
            BindType::Bindl => "bindl"@,
            BindType::Bindld => "bindld"@,
            BindType::Other(s) => s@,
        }
    }

    /// The directive's name as written in a config file.
    pub fn to_string(&self) -> (r: String)
        ensures
            r@ == self.text(),
    {
        match self {
            BindType::Bind => String::from_str("bind"),
            BindType::Bindd => String::from_str("bindd"),
            BindType::Bindr => String::from_str("bindr"),
            BindType::Bindl => String::from_str("bindl"),
            BindType::Bindld => String::from_str("bindld"),
            BindType::Other(s) => s.clone(),
        }
    }
}

/// A parsed Hyprland keybinding.
#[derive(Debug, Clone)]
pub struct HyprBinding {
    pub bind_type: BindType,
    pub modifiers: Modifiers,
    pub key: String,
    pub description: Option<String>,
    pub dispatcher: String,
    pub command: String,
    pub source: BindingSource,
    /// The original line from the config file
    pub raw_line: String,
}

/// `SUPER + R` style text: the modifiers, then the key; the key alone when
/// there are no modifiers.
pub open spec fn key_display(ms: Seq<Modifier>, key: Seq<char>) -> Seq<char> {
    if ms.len() == 0 {
        key
    } else {
        modifiers_text(ms) + " + "@ + key
    }
}

/// Builds the `key_display` text.
pub fn display_key_text(modifiers: &Modifiers, key: &String) -> (r: String)
    ensures
        r@ == key_display(modifiers.view(), key@),
{
    if modifiers.is_empty() {
        key.clone()
    } else {
        let mut s = modifiers.to_string();
        s.append(" + ");
        s.append(key.as_str());
        s
    }
}

impl HyprBinding {
    /// Display string for the keybinding (e.g. "SUPER + R").
    pub fn display_key(&self) -> (r: String)
        ensures
            r@ == key_display(self.modifiers.view(), self.key@),
    {
        display_key_text(&self.modifiers, &self.key)
    }
}

/// The directive names, longest first, as they are tried.
pub open spec fn bind_prefixes() -> Seq<Seq<char>> {
    seq!["bindld"@, "bindd"@, "bindr"@, "bindl"@, "bind"@]
}

pub open spec fn prefix_bind_type(k: int) -> BindType {
    if k == 0 {
        BindType::Bindld
    } else if k == 1 {
        BindType::Bindd
    } else if k == 2 {
        BindType::Bindr
    } else if k == 3 {
        BindType::Bindl
    } else {
        BindType::Bind
    }
}

fn prefix_at(k: usize) -> (r: (&'static str, BindType))
    requires
        k < 5,
    ensures
        r.0@ == bind_prefixes()[k as int],
        r.1 == prefix_bind_type(k as int),
{
    match k {
        0 => ("bindld", BindType::Bindld),
        1 => ("bindd", BindType::Bindd),
        2 => ("bindr", BindType::Bindr),
        3 => ("bindl", BindType::Bindl),
        _ => ("bind", BindType::Bind),
    }
}

/// What follows the directive name `p`, leading white space removed.
pub open spec fn after_name(line: Seq<char>, p: Seq<char>) -> Seq<char> {
    trim_start_seq(line.subrange(p.len() as int, line.len() as int))
}

/// Whether `line` is a `p = ...` directive (the name in any letter case).
pub open spec fn directive_with(line: Seq<char>, p: Seq<char>) -> bool {
    &&& p.len() <= line.len()
    &&& starts_with_seq(lower_of(line), p)
    &&& after_name(line, p).len() > 0
    &&& after_name(line, p)[0] == '='
}

/// The first directive name, from index `k` on, that `line` uses.
pub open spec fn directive_index(line: Seq<char>, k: int) -> Option<int>
    decreases 5 - k,
{
    if k >= 5 || k < 0 {
        None
    } else if directive_with(line, bind_prefixes()[k]) {
        Some(k)
    } else {
        directive_index(line, k + 1)
    }
}

/// The trimmed comma-separated fields after the `=`, the last one keeping
/// any further commas.
pub open spec fn bind_fields(after_eq: Seq<char>) -> Seq<Seq<char>> {
    splitn_of(after_eq, ',', 5).map_values(|f: Seq<char>| trimmed(f))
}

/// `b` is the binding read from fields `f` of a directive of type `t`.
pub open spec fn binding_from_fields(b: HyprBinding, t: BindType, f: Seq<Seq<char>>, raw: Seq<char>, source: Seq<char>, num: usize) -> bool {
    &&& f.len() >= 4
    &&& b.bind_type == t
    &&& b.modifiers.view() == parsed_modifiers(words_of(f[0]))
    &&& b.key@ == f[1]
    &&& if t is Bindd || t is Bindld {
        &&& b.description.is_some() && b.description->0@ == f[2]
        &&& b.dispatcher@ == f[3]
        &&& b.command@ == if f.len() >= 5 { f[4] } else { Seq::empty() }
    } else {
        &&& b.description.is_none()
        &&& b.dispatcher@ == f[2]
        &&& b.command@ == f[3]
    }
    &&& b.source.file@ == source
    &&& b.source.line == num
    &&& b.raw_line@ == raw
}

/// Whether a (trimmed) line is a bind directive with enough fields.
pub open spec fn binds(line: Seq<char>) -> bool {
    match directive_index(line, 0) {
        Some(k) => bind_fields(after_name(line, bind_prefixes()[k]).drop_first()).len() >= 4,
        None => false,
    }
}

/// `b` is the binding a (trimmed) line declares.
pub open spec fn binding_of_line(b: HyprBinding, line: Seq<char>, source: Seq<char>, num: usize) -> bool {
    match directive_index(line, 0) {
        Some(k) => binding_from_fields(
            b,
            prefix_bind_type(k),
            bind_fields(after_name(line, bind_prefixes()[k]).drop_first()),
            line,
            source,
            num,
        ),
        None => false,
    }
}

/// Parses the fields after the `=` of a directive of type `bind_type`.
fn parse_bind_parts(bind_type: BindType, parts_str: &[char], raw_line: &str, source_path: &str, line_num: usize) -> (r: Option<HyprBinding>)
    ensures
        r is Some <==> bind_fields(parts_str@).len() >= 4,
        r is Some ==> binding_from_fields(r->0, bind_type, bind_fields(parts_str@), raw_line@, source_path@, line_num),
{
    let pieces = splitn_chars(parts_str, ',', 5);
    let mut parts: Vec<Vec<char>> = Vec::new();
    let mut i: usize = 0;
    while i < pieces.len()
        invariant
            i <= pieces@.len(),
            views(pieces@) == splitn_of(parts_str@, ',', 5),
            parts@.len() == i,
            forall|j: int| 0 <= j < i ==> #[trigger] parts@[j]@ == trimmed(pieces@[j]@),
        decreases pieces@.len() - i,
    {
        parts.push(trim_chars(pieces[i].as_slice()));
        i = i + 1;
    }
    proof {
        assert(views(parts@) =~= bind_fields(parts_str@));
    }
    if parts.len() < 4 {
        return None;
    }
    let mod_text = string_of(parts[0].as_slice());
    let modifiers = Modifiers::parse(mod_text.as_str());
    let key = string_of(parts[1].as_slice());
    let described = matches!(bind_type, BindType::Bindd | BindType::Bindld);
    let (description, dispatcher, command) = if described {
        if parts.len() >= 5 {
            (Some(string_of(parts[2].as_slice())), string_of(parts[3].as_slice()), string_of(parts[4].as_slice()))
        } else {
            (Some(string_of(parts[2].as_slice())), string_of(parts[3].as_slice()), String::new())
        }
    } else {
        (None, string_of(parts[2].as_slice()), string_of(parts[3].as_slice()))
    };
    proof {
        assert(views(parts@)[0] == parts@[0]@);
        assert(views(parts@)[1] == parts@[1]@);
        assert(views(parts@)[2] == parts@[2]@);
        assert(views(parts@)[3] == parts@[3]@);
        if parts@.len() >= 5 {
            assert(views(parts@)[4] == parts@[4]@);
        }
    }
    Some(HyprBinding {
        bind_type,
        modifiers,
        key,
        description,
        dispatcher,
        command,
        source: BindingSource { file: String::from_str(source_path), line: line_num },
        raw_line: String::from_str(raw_line),
    })
}

/// Parses one trimmed line: a `bind`, `bindd`, `bindr`, `bindl` or
/// `bindld` directive (name in any letter case) followed by `=` and at
/// least four comma-separated fields.
pub fn parse_bind_line(line: &str, source_path: &str, line_num: usize) -> (r: Option<HyprBinding>)
    ensures
        r is Some <==> binds(line@),
        r is Some ==> binding_of_line(r->0, line@, source_path@, line_num),
{
    let chars = chars_of(line);
    let lower = to_lower(line);
    let lower_chars = chars_of(lower.as_str());
    let mut k: usize = 0;
    while k < 5
        invariant
            k <= 5,
            chars@ == line@,
            lower_chars@ == lower_of(line@),
            directive_index(line@, 0) == directive_index(line@, k as int),
        decreases 5 - k,
    {
        let (prefix, bind_type) = prefix_at(k);
        let pc = chars_of(prefix);
        proof {
            reveal_strlit("bindld");
            reveal_strlit("bindd");
            reveal_strlit("bindr");
            reveal_strlit("bindl");
            reveal_strlit("bind");
        }
        if pc.len() <= chars.len() && starts_with_chars(lower_chars.as_slice(), pc.as_slice()) {
            let rest = copy_range(chars.as_slice(), pc.len(), chars.len());
            let rest = trim_start_chars(rest.as_slice());
            if rest.len() > 0 && rest[0] == '=' {
                let after_eq = copy_range(rest.as_slice(), 1, rest.len());
                assert(after_eq@ =~= rest@.drop_first());
                return parse_bind_parts(bind_type, after_eq.as_slice(), line, source_path, line_num);
            }
        }
        k = k + 1;
    }
    None
}

/// The line numbers (counted from 1) and trimmed texts of the lines that
/// declare bindings, in order.
pub open spec fn binding_lines(ls: Seq<Seq<char>>) -> Seq<(usize, Seq<char>)>
    decreases ls.len(),
{
    if ls.len() == 0 {
        Seq::empty()
    } else {
        let rest = binding_lines(ls.drop_last());
        let t = trimmed(ls.last());
        if t.len() > 0 && t[0] != '#' && binds(t) {
            rest.push((ls.len() as usize, t))
        } else {
            rest
        }
    }
}

/// Parses every binding of a config text; comments, blank lines and other
/// lines are skipped.
pub fn parse_bindings_from_content(content: &str, source_path: &str) -> (r: Vec<HyprBinding>)
    requires
        lines_of(content@).len() < usize::MAX,
    ensures
        r@.len() == binding_lines(lines_of(content@)).len(),
        forall|j: int| 0 <= j < r@.len() ==> binding_of_line(
            #[trigger] r@[j],
            binding_lines(lines_of(content@))[j].1,
            source_path@,
            binding_lines(lines_of(content@))[j].0,
        ),
{
    let c = chars_of(content);
    let ls = lines_chars(c.as_slice());
    let ghost all = lines_of(content@);
    let mut bindings: Vec<HyprBinding> = Vec::new();
    let mut i: usize = 0;
    while i < ls.len()
        invariant
            i <= ls@.len(),
            views(ls@) == all,
            all == lines_of(content@),
            all.len() < usize::MAX,
            bindings@.len() == binding_lines(all.subrange(0, i as int)).len(),
            forall|j: int| 0 <= j < bindings@.len() ==> binding_of_line(
                #[trigger] bindings@[j],
                binding_lines(all.subrange(0, i as int))[j].1,
                source_path@,
                binding_lines(all.subrange(0, i as int))[j].0,
            ),
        decreases ls@.len() - i,
    {
        let t = trim_chars(ls[i].as_slice());
        proof {
            assert(all.subrange(0, i + 1).drop_last() =~= all.subrange(0, i as int));
            assert(all.subrange(0, i + 1).last() == ls@[i as int]@);
        }
        if t.len() > 0 && t[0] != '#' {
            let text = string_of(t.as_slice());
            match parse_bind_line(text.as_str(), source_path, i + 1) {
                Some(b) => {
                    bindings.push(b);
                },
                None => {},
            }
        }
        i = i + 1;
    }
    assert(all.subrange(0, ls@.len() as int) =~= all);
    bindings
}

} // verus!
