use vstd::prelude::*;
use vstd::string::*;
use crate::text::{chars_of, push_char};

verus! {

// Windows-style placeholder expansion over a fixed set of ten environment
// variables. Expansion is a single left-to-right pass: at each `%` the
// scanner tries to read one supported `%NAME%` placeholder (the name is
// matched case-insensitively) and replaces it with the variable's value,
// which may be empty when the variable is unset; every other character is
// copied through unchanged. The output is never re-scanned.

/// The values of the ten supported variables; an unset variable holds the
/// empty string.
#[derive(Clone, Debug)]
pub struct EnvVars {
    pub user_profile: String,
    pub app_data: String,
    pub local_app_data: String,
    pub temp: String,
    pub tmp: String,
    pub program_files: String,
    pub program_files_x86: String,
    pub system_drive: String,
    pub win_dir: String,
    pub public_dir: String,
}

/// The number of supported variables.
pub open spec fn var_count() -> int {
    10
}

/// The name of supported variable `k`, in its canonical upper-case form.
pub open spec fn var_name(k: int) -> Seq<char> {
    if k == 0 {
        seq!['U', 'S', 'E', 'R', 'P', 'R', 'O', 'F', 'I', 'L', 'E']
    } else if k == 1 {
        seq!['A', 'P', 'P', 'D', 'A', 'T', 'A']
    } else if k == 2 {
        seq!['L', 'O', 'C', 'A', 'L', 'A', 'P', 'P', 'D', 'A', 'T', 'A']
    } else if k == 3 {
        seq!['T', 'E', 'M', 'P']
    } else if k == 4 {
        seq!['T', 'M', 'P']
    } else if k == 5 {
        seq!['P', 'R', 'O', 'G', 'R', 'A', 'M', 'F', 'I', 'L', 'E', 'S']
    } else if k == 6 {
        seq!['P', 'R', 'O', 'G', 'R', 'A', 'M', 'F', 'I', 'L', 'E', 'S', '(', 'X', '8', '6', ')']
    } else if k == 7 {
        seq!['S', 'Y', 'S', 'T', 'E', 'M', 'D', 'R', 'I', 'V', 'E']
    } else if k == 8 {
        seq!['W', 'I', 'N', 'D', 'I', 'R']
    } else {
        seq!['P', 'U', 'B', 'L', 'I', 'C']
    }
}

/// The character code used for case-insensitive comparison: upper-case
/// ASCII letters are folded onto their lower-case forms.
pub open spec fn lower_code(c: char) -> int {
    if 65 <= c as int <= 90 {
        c as int + 32
    } else {
        c as int
    }
}

/// Case-insensitive character equality, ASCII letters only.
pub open spec fn eq_ci(a: char, b: char) -> bool {
    lower_code(a) == lower_code(b)
}

impl EnvVars {
    /// The value of supported variable `k`.
    pub open spec fn spec_value(&self, k: int) -> Seq<char> {
        if k == 0 {
            self.user_profile@
        } else if k == 1 {
            self.app_data@
        } else if k == 2 {
            self.local_app_data@
        } else if k == 3 {
            self.temp@
        } else if k == 4 {
            self.tmp@
        } else if k == 5 {
            self.program_files@
        } else if k == 6 {
            self.program_files_x86@
        } else if k == 7 {
            self.system_drive@
        } else if k == 8 {
            self.win_dir@
        } else {
            self.public_dir@
        }
    }
}

/// Whether the placeholder of variable `k` stands in `s` at position `i`:
/// a `%`, the name compared case-insensitively, and a closing `%`.
pub open spec fn placeholder_at(s: Seq<char>, i: int, k: int) -> bool {
    let name = var_name(k);
    &&& 0 <= i
    &&& i + name.len() + 2 <= s.len()
    &&& s[i] == '%'
    &&& s[i + name.len() + 1] == '%'
    &&& forall|j: int| 0 <= j < name.len() ==> eq_ci(s[i + 1 + j], name[j])
}

/// The first supported variable whose placeholder stands at position `i`,
/// or -1 when none does.
pub open spec fn placeholder_match(s: Seq<char>, i: int) -> int {
    if placeholder_at(s, i, 0) {
        0
    } else if placeholder_at(s, i, 1) {
        1
    } else if placeholder_at(s, i, 2) {
        2
    } else if placeholder_at(s, i, 3) {
        3
    } else if placeholder_at(s, i, 4) {
        4
    } else if placeholder_at(s, i, 5) {
        5
    } else if placeholder_at(s, i, 6) {
        6
    } else if placeholder_at(s, i, 7) {
        7
    } else if placeholder_at(s, i, 8) {
        8
    } else if placeholder_at(s, i, 9) {
        9
    } else {
        -1
    }
}

/// The expansion of the tail of `s` that starts at position `i`.
pub open spec fn expand_from(s: Seq<char>, env: EnvVars, i: int) -> Seq<char>
    decreases s.len() - i,
{
    if i < 0 || i >= s.len() {
        Seq::empty()
    } else {
        let k = placeholder_match(s, i);
        if k >= 0 {
            env.spec_value(k) + expand_from(s, env, i + var_name(k).len() + 2)
        } else {
            seq![s[i]] + expand_from(s, env, i + 1)
        }
    }
}

/// The one-pass expansion of `s` against the variable values in `env`.
pub open spec fn spec_expand(s: Seq<char>, env: EnvVars) -> Seq<char> {
    expand_from(s, env, 0)
}

/// The canonical spelling of variable `k`'s name.
fn name_str(k: usize) -> (r: &'static str)
    requires
        k < 10,
    ensures
        r@ == var_name(k as int),
{
    if k == 0 {
        proof {
            reveal_strlit("USERPROFILE");
            assert("USERPROFILE"@ =~= var_name(0));
        }
        "USERPROFILE"
    } else if k == 1 {
        proof {
            reveal_strlit("APPDATA");
            assert("APPDATA"@ =~= var_name(1));
        }
        "APPDATA"
    } else if k == 2 {
        proof {
            reveal_strlit("LOCALAPPDATA");
            assert("LOCALAPPDATA"@ =~= var_name(2));
        }
        "LOCALAPPDATA"
    } else if k == 3 {
        proof {
            reveal_strlit("TEMP");
            assert("TEMP"@ =~= var_name(3));
        }
        "TEMP"
    } else if k == 4 {
        proof {
            reveal_strlit("TMP");
            assert("TMP"@ =~= var_name(4));
        }
        "TMP"
    } else if k == 5 {
        proof {
            reveal_strlit("PROGRAMFILES");
            assert("PROGRAMFILES"@ =~= var_name(5));
        }
        "PROGRAMFILES"
    } else if k == 6 {
        proof {
            reveal_strlit("PROGRAMFILES(X86)");
            assert("PROGRAMFILES(X86)"@ =~= var_name(6));
        }
        "PROGRAMFILES(X86)"
    } else if k == 7 {
        proof {
            reveal_strlit("SYSTEMDRIVE");
            assert("SYSTEMDRIVE"@ =~= var_name(7));
        }
        "SYSTEMDRIVE"
    } else if k == 8 {
        proof {
            reveal_strlit("WINDIR");
            assert("WINDIR"@ =~= var_name(8));
        }
        "WINDIR"
    } else {
        proof {
            reveal_strlit("PUBLIC");
            assert("PUBLIC"@ =~= var_name(9));
        }
        "PUBLIC"
    }
}

/// Case-insensitive character comparison.
fn char_eq_ci(a: char, b: char) -> (r: bool)
    ensures
        r == eq_ci(a, b),
{
    let ca = a as u32;
    let cb = b as u32;
    let la = if ca >= 65 && ca <= 90 {
        ca + 32
    } else {
        ca
    };
    let lb = if cb >= 65 && cb <= 90 {
        cb + 32
    } else {
        cb
    };
    la == lb
}

/// Whether variable `k`'s placeholder stands at position `i` of `v`.
fn placeholder_at_exec(v: &Vec<char>, i: usize, k: usize) -> (r: bool)
    requires
        k < 10,
        i <= v@.len(),
    ensures
        r == placeholder_at(v@, i as int, k as int),
{
    let name = chars_of(name_str(k));
    let nl = name.len();
    let vl = v.len();
    if vl - i < nl + 2 {
        return false;
    }
    if v[i] != '%' {
        return false;
    }
    if v[i + nl + 1] != '%' {
        return false;
    }
    let mut j: usize = 0;
    while j < nl
        invariant
            j <= nl,
            k < 10,
            name@ == var_name(k as int),
            nl == name@.len(),
            vl == v@.len(),
            i + nl + 2 <= vl,
            v@[i as int] == '%',
            v@[i + nl + 1] == '%',
            forall|t: int| 0 <= t < j ==> eq_ci(v@[i + 1 + t], var_name(k as int)[t]),
        decreases nl - j,
    {
        if !char_eq_ci(v[i + 1 + j], name[j]) {
            assert(!eq_ci(v@[i + 1 + j], var_name(k as int)[j as int]));
            return false;
        }
        j = j + 1;
    }
    true
}

/// The first supported variable whose placeholder stands at position `i`
/// of `v`, if any.
fn find_placeholder(v: &Vec<char>, i: usize) -> (m: Option<usize>)
    requires
        i <= v@.len(),
    ensures
        match m {
            Some(k) => k < 10 && placeholder_match(v@, i as int) == k as int,
            None => placeholder_match(v@, i as int) == -1,
        },
{
    if placeholder_at_exec(v, i, 0) {
        Some(0)
    } else if placeholder_at_exec(v, i, 1) {
        Some(1)
    } else if placeholder_at_exec(v, i, 2) {
        Some(2)
    } else if placeholder_at_exec(v, i, 3) {
        Some(3)
    } else if placeholder_at_exec(v, i, 4) {
        Some(4)
    } else if placeholder_at_exec(v, i, 5) {
        Some(5)
    } else if placeholder_at_exec(v, i, 6) {
        Some(6)
    } else if placeholder_at_exec(v, i, 7) {
        Some(7)
    } else if placeholder_at_exec(v, i, 8) {
        Some(8)
    } else if placeholder_at_exec(v, i, 9) {
        Some(9)
    } else {
        None
    }
}

impl EnvVars {
    /// The value of supported variable `k`, as a string slice.
    fn value_str(&self, k: usize) -> (r: &str)
        requires
            k < 10,
        ensures
            r@ == self.spec_value(k as int),
    {
        if k == 0 {
            self.user_profile.as_str()
        } else if k == 1 {
            self.app_data.as_str()
        } else if k == 2 {
            self.local_app_data.as_str()
        } else if k == 3 {
            self.temp.as_str()
        } else if k == 4 {
            self.tmp.as_str()
        } else if k == 5 {
            self.program_files.as_str()
        } else if k == 6 {
            self.program_files_x86.as_str()
        } else if k == 7 {
            self.system_drive.as_str()
        } else if k == 8 {
            self.win_dir.as_str()
        } else {
            self.public_dir.as_str()
        }
    }

    /// Expands every supported `%NAME%` placeholder of `raw` in one
    /// left-to-right pass; an unset variable expands to the empty string,
    /// and text without placeholders is returned unchanged.
    pub fn expand(&self, raw: &str) -> (r: String)
        ensures
            r@ == spec_expand(raw@, *self),
    {
        let v = chars_of(raw);
        let mut out = String::new();
        let mut i: usize = 0;
        proof {
            assert(out@ + expand_from(v@, *self, 0) =~= spec_expand(v@, *self));
        }
        while i < v.len()
            invariant
                i <= v@.len(),
                v@ == raw@,
                out@ + expand_from(v@, *self, i as int) == spec_expand(raw@, *self),
            decreases v@.len() - i,
        {
            let ghost prev = out@;
            match find_placeholder(&v, i) {
                Some(k) => {
                    let name = chars_of(name_str(k));
                    let step = name.len() + 2;
                    let value = self.value_str(k);
                    out.append(value);
                    proof {
                        assert(placeholder_at(v@, i as int, k as int));
                        assert(expand_from(v@, *self, i as int) == self.spec_value(k as int)
                            + expand_from(v@, *self, i + step));
                        assert(out@ + expand_from(v@, *self, i + step) =~= prev + expand_from(
                            v@,
                            *self,
                            i as int,
                        ));
                    }
                    i = i + step;
                },
                None => {
                    push_char(&mut out, v[i]);
                    proof {
                        assert(expand_from(v@, *self, i as int) == seq![v@[i as int]]
                            + expand_from(v@, *self, i + 1));
                        assert(out@ + expand_from(v@, *self, i + 1) =~= prev + expand_from(
                            v@,
                            *self,
                            i as int,
                        ));
                    }
                    i = i + 1;
                },
            }
        }
        proof {
            assert(expand_from(v@, *self, i as int) =~= Seq::empty());
            assert(out@ + expand_from(v@, *self, i as int) =~= out@);
        }
        out
    }
}

// --- the expansion leaves no supported placeholder behind -------------------

/// `s` holds no `%` character at all.
pub open spec fn percent_free(s: Seq<char>) -> bool {
    forall|i: int| 0 <= i < s.len() ==> s[i] != '%'
}

/// Every variable value in `env` is free of `%` characters.
pub open spec fn env_percent_free(env: EnvVars) -> bool {
    forall|k: int| 0 <= k < var_count() ==> percent_free(#[trigger] env.spec_value(k))
}

/// Every `%` in the tail of `s` from `i` on begins a supported placeholder.
pub open spec fn well_placed_from(s: Seq<char>, i: int) -> bool
    decreases s.len() - i,
{
    if i < 0 || i >= s.len() {
        true
    } else if s[i] != '%' {
        well_placed_from(s, i + 1)
    } else {
        let k = placeholder_match(s, i);
        k >= 0 && well_placed_from(s, i + var_name(k).len() + 2)
    }
}

/// Every `%` in `s` begins a supported placeholder.
pub open spec fn well_placed(s: Seq<char>) -> bool {
    well_placed_from(s, 0)
}

proof fn lemma_expand_from_identity(s: Seq<char>, env: EnvVars, i: int)
    requires
        percent_free(s),
        0 <= i <= s.len(),
    ensures
        expand_from(s, env, i) == s.subrange(i, s.len() as int),
    decreases s.len() - i,
{
    if i >= s.len() {
        assert(s.subrange(i, s.len() as int) =~= Seq::empty());
    } else {
        assert(placeholder_match(s, i) == -1);
        lemma_expand_from_identity(s, env, i + 1);
        assert(seq![s[i]] + s.subrange(i + 1, s.len() as int) =~= s.subrange(i, s.len() as int));
    }
}

/// Law: text without a `%` character is returned unchanged, whatever the
/// variables hold.
pub proof fn lemma_expand_leaves_plain_text_unchanged(s: Seq<char>, env: EnvVars)
    requires
        percent_free(s),
    ensures
        spec_expand(s, env) == s,
{
    lemma_expand_from_identity(s, env, 0);
    assert(s.subrange(0, s.len() as int) =~= s);
}

proof fn lemma_expand_from_percent_free(s: Seq<char>, env: EnvVars, i: int)
    requires
        well_placed_from(s, i),
        env_percent_free(env),
        i >= 0,
    ensures
        percent_free(expand_from(s, env, i)),
    decreases s.len() - i,
{
    if i >= s.len() {
    } else if s[i] != '%' {
        assert(placeholder_match(s, i) == -1);
        lemma_expand_from_percent_free(s, env, i + 1);
        assert(percent_free(seq![s[i]] + expand_from(s, env, i + 1)));
    } else {
        let k = placeholder_match(s, i);
        assert(0 <= k < var_count());
        lemma_expand_from_percent_free(s, env, i + var_name(k).len() + 2);
        assert(percent_free(env.spec_value(k)));
        assert(percent_free(env.spec_value(k) + expand_from(s, env, i + var_name(k).len() + 2)));
    }
}

/// Law: when every `%` of the input begins a supported placeholder and no
/// variable value holds a `%`, the expansion holds no `%` at all — so no
/// supported `%NAME%` placeholder, matched case-insensitively, survives
/// anywhere in it. Inputs with stray `%` characters are excluded: with
/// `TEMP` unset, expanding `%TE%TEMP%MP%` yields the text `%TEMP%`.
pub proof fn lemma_expand_leaves_no_placeholder(s: Seq<char>, env: EnvVars)
    requires
        well_placed(s),
        env_percent_free(env),
    ensures
        percent_free(spec_expand(s, env)),
        forall|i: int, k: int| 0 <= k < var_count() ==> !placeholder_at(spec_expand(s, env), i, k),
{
    lemma_expand_from_percent_free(s, env, 0);
    assert forall|i: int, k: int| 0 <= k < var_count() implies !placeholder_at(
        spec_expand(s, env),
        i,
        k,
    ) by {
        if placeholder_at(spec_expand(s, env), i, k) {
            assert(spec_expand(s, env)[i] == '%');
        }
    }
}

} // verus!
