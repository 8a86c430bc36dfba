//! Textual macro substitution: `?NAME` uses replaced by the macro's
//! text, for macros defined with no parameters.

use vstd::prelude::*;

use crate::pp_scope::DefModel;
use crate::pp_scope::ParserScopeImpl;
use crate::pp_scope::defs_lookup;
use crate::token_stream::is_name_char;
use crate::token_stream::name_char;
use crate::token_stream::substring_of;

verus! {

/// The number of name characters from position `i` on.
pub open spec fn ident_len_from(s: Seq<char>, i: int) -> int
    decreases s.len() - i,
{
    if i < 0 || i >= s.len() || !is_name_char(s[i]) {
        0
    } else {
        1 + ident_len_from(s, i + 1)
    }
}

/// `ident_len_from` is nonnegative and keeps `i + len` within bounds.
pub proof fn lemma_ident_len_from(s: Seq<char>, i: int)
    requires
        0 <= i <= s.len(),
    ensures
        0 <= ident_len_from(s, i),
        i + ident_len_from(s, i) <= s.len(),
    decreases s.len() - i,
{
    if i < s.len() && is_name_char(s[i]) {
        lemma_ident_len_from(s, i + 1);
    }
}

/// The text from position `i` on with every `?NAME` use of a
/// zero-parameter macro replaced by that macro's text; `?` before
/// anything else, and all other characters, pass through.
pub open spec fn subst_from(s: Seq<char>, defs: Seq<DefModel>, i: int) -> Seq<char>
    decreases s.len() - i,
{
    if i < 0 || i >= s.len() {
        Seq::empty()
    } else if s[i] == '?' {
        let l = ident_len_from(s, i + 1);
        if l > 0 && i + 1 + l <= s.len() {
            match defs_lookup(defs, s.subrange(i + 1, i + 1 + l), 0) {
                Option::Some(d) => d.text + subst_from(s, defs, i + 1 + l),
                Option::None => seq![s[i]] + subst_from(s, defs, i + 1),
            }
        } else {
            seq![s[i]] + subst_from(s, defs, i + 1)
        }
    } else {
        seq![s[i]] + subst_from(s, defs, i + 1)
    }
}

/// The whole text with zero-parameter macros substituted.
pub open spec fn subst_model(s: Seq<char>, defs: Seq<DefModel>) -> Seq<char> {
    subst_from(s, defs, 0)
}

/// Text without `?` is left unchanged by substitution, under any scope.
pub proof fn lemma_subst_no_marks(s: Seq<char>, defs: Seq<DefModel>, i: int)
    requires
        0 <= i <= s.len(),
        forall|j: int| 0 <= j < s.len() ==> s[j] != '?',
    ensures
        subst_from(s, defs, i) == s.skip(i),
    decreases s.len() - i,
{
    if i < s.len() {
        lemma_subst_no_marks(s, defs, i + 1);
        assert(seq![s[i]] + s.skip(i + 1) =~= s.skip(i));
    } else {
        assert(s.skip(i) =~= Seq::<char>::empty());
    }
}

/// Substitute zero-parameter macro uses in `input` under `scope`, per
/// [`subst_model`].
pub fn substitute_macros(input: &str, scope: &ParserScopeImpl) -> (r: String)
    ensures
        r@ == subst_model(input@, scope@),
{
    let n = input.unicode_len();
    let mut out = String::new();
    proof {
        assert(out@ + subst_from(input@, scope@, 0) =~= subst_from(input@, scope@, 0));
    }
    let mut i: usize = 0;
    while i < n
        invariant
            n == input@.len(),
            0 <= i <= n,
            out@ + subst_from(input@, scope@, i as int) == subst_model(input@, scope@),
        decreases n - i,
    {
        let c = input.get_char(i);
        if c == '?' {
            proof {
                lemma_ident_len_from(input@, i as int + 1);
            }
            let mut j = i + 1;
            while j < n && name_char(input.get_char(j))
                invariant
                    n == input@.len(),
                    i + 1 <= j <= n,
                    ident_len_from(input@, i as int + 1) == (j - (i + 1)) + ident_len_from(
                        input@,
                        j as int,
                    ),
                decreases n - j,
            {
                j = j + 1;
            }
            proof {
                assert(ident_len_from(input@, j as int) == 0);
                assert(ident_len_from(input@, i as int + 1) == j - (i + 1));
            }
            if j > i + 1 {
                let name = substring_of(input, i + 1, j);
                match scope.get_value(name.as_str(), 0) {
                    Option::Some(d) => {
                        out.append(d.text.as_str());
                        i = j;
                    },
                    Option::None => {
                        let piece = substring_of(input, i, i + 1);
                        out.append(piece.as_str());
                        proof {
                            assert(seq![input@[i as int]] =~= input@.subrange(
                                i as int,
                                i as int + 1,
                            ));
                        }
                        i = i + 1;
                    },
                }
            } else {
                let piece = substring_of(input, i, i + 1);
                out.append(piece.as_str());
                proof {
                    assert(seq![input@[i as int]] =~= input@.subrange(i as int, i as int + 1));
                }
                i = i + 1;
            }
        } else {
            let piece = substring_of(input, i, i + 1);
            out.append(piece.as_str());
            proof {
                assert(seq![input@[i as int]] =~= input@.subrange(i as int, i as int + 1));
            }
            i = i + 1;
        }
    }
    proof {
        assert(subst_from(input@, scope@, n as int) =~= Seq::<char>::empty());
        assert(out@ + subst_from(input@, scope@, n as int) =~= out@);
    }
    out
}

/// A text container whose contents can be replaced by macro
/// substitution.
#[derive(Debug)]
pub struct MacroString {
    /// The current text.
    pub text: String,
}

impl MacroString {
    /// An empty text.
    pub fn new_empty() -> (r: MacroString)
        ensures
            r.text@ == Seq::<char>::empty(),
    {
        MacroString { text: String::new() }
    }

    /// A text from a string slice.
    pub fn new(text: &str) -> (r: MacroString)
        ensures
            r.text@ == text@,
    {
        MacroString { text: text.to_owned() }
    }

    /// A text from an owned string.
    pub fn new_string(text: String) -> (r: MacroString)
        ensures
            r.text@ == text@,
    {
        MacroString { text }
    }

    /// Replace the text by its macro substitution under `scope`.
    pub fn update(&mut self, scope: &ParserScopeImpl)
        ensures
            final(self).text@ == subst_model(old(self).text@, scope@),
    {
        let new_text = substitute_macros(self.text.as_str(), scope);
        self.text = new_text;
    }
}

} // verus!
