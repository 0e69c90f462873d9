//! Parse textual tokens such as `"true"`, `"no"` or `"1"` into booleans.
//!
//! Matching is driven by two token lists, a truthy one and a falsey one.
//! Each [`BoolContext`] owns a write-once slot for either list: the slot can
//! be customized once, before the first parse touches it, and falls back to
//! the built-in tokens otherwise. The input is ASCII-lower-cased before it is
//! compared, the stored tokens are not; the built-in tokens are already
//! lower case, a custom token with an upper-case letter can never match.

use vstd::prelude::*;

mod cell;
mod defaults;
mod fold;

pub use defaults::default_falsey;
pub use defaults::default_truthy;
pub use defaults::falsey_values;
pub use defaults::lemma_defaults_disjoint;
pub use defaults::truthy_values;
pub use fold::fold_char;
pub use fold::lower;

verus! {

use once_cell::sync::OnceCell;
use vstd::string::StringExecFns;

/// One execution context's configuration: a write-once slot for the truthy
/// tokens and an independent write-once slot for the falsey tokens.
///
/// Contexts are isolated from one another: what a parse returns depends on
/// nothing but the context it was handed and the input string.
pub struct BoolContext {
    truthy: OnceCell<Vec<String>>,
    falsey: OnceCell<Vec<String>>,
}

impl BoolContext {
    /// The truthy slot: `None` until a call set it, then the tokens it was
    /// set to, for good.
    pub closed spec fn truthy_slot(&self) -> Option<Seq<Seq<char>>> {
        cell::cell_tokens(self.truthy)
    }

    /// The falsey slot: `None` until a call set it, then the tokens it was
    /// set to, for good.
    pub closed spec fn falsey_slot(&self) -> Option<Seq<Seq<char>>> {
        cell::cell_tokens(self.falsey)
    }

    /// The truthy tokens a parse in this context compares against: the
    /// slot's content, or the built-in list while the slot is unset.
    pub open spec fn effective_truthy(&self) -> Seq<Seq<char>> {
        match self.truthy_slot() {
            Some(tokens) => tokens,
            None => default_truthy(),
        }
    }

    /// The falsey tokens a parse in this context compares against: the
    /// slot's content, or the built-in list while the slot is unset.
    pub open spec fn effective_falsey(&self) -> Seq<Seq<char>> {
        match self.falsey_slot() {
            Some(tokens) => tokens,
            None => default_falsey(),
        }
    }

    /// How this context classifies an input: `Some(true)` when the folded
    /// input is an effective truthy token, otherwise `Some(false)` when it
    /// is an effective falsey token, otherwise `None`.
    pub open spec fn classification(&self, s: Seq<char>) -> Option<bool> {
        if self.effective_truthy().contains(lower(s)) {
            Some(true)
        } else if self.effective_falsey().contains(lower(s)) {
            Some(false)
        } else {
            None
        }
    }

    /// A fresh context: both slots unset.
    pub fn new() -> (ctx: BoolContext)
        ensures
            ctx.truthy_slot() is None,
            ctx.falsey_slot() is None,
    {
        BoolContext { truthy: cell::cell_new(), falsey: cell::cell_new() }
    }
}

/// Try to set the context's truthy tokens. The first writer wins: the call
/// returns `true` and fixes the list exactly when the slot was still unset,
/// whether a slot counts as set by an earlier call here or by the lazy
/// default a parse stored. A losing call leaves the slot as it was and
/// returns `false`. The falsey slot is untouched either way.
pub fn initialize_true_values(ctx: &mut BoolContext, values: Vec<String>) -> (updated: bool)
    ensures
        updated == (old(ctx).truthy_slot() is None),
        updated ==> final (ctx).truthy_slot() == Some(values.deep_view()),
        !updated ==> final (ctx).truthy_slot() == old(ctx).truthy_slot(),
        final (ctx).falsey_slot() == old(ctx).falsey_slot(),
{
    cell::cell_set(&mut ctx.truthy, values)
}

/// Try to set the context's falsey tokens; the exact counterpart of
/// [`initialize_true_values`], acting on the falsey slot alone.
pub fn initialize_false_values(ctx: &mut BoolContext, values: Vec<String>) -> (updated: bool)
    ensures
        updated == (old(ctx).falsey_slot() is None),
        updated ==> final (ctx).falsey_slot() == Some(values.deep_view()),
        !updated ==> final (ctx).falsey_slot() == old(ctx).falsey_slot(),
        final (ctx).truthy_slot() == old(ctx).truthy_slot(),
{
    cell::cell_set(&mut ctx.falsey, values)
}

/// A boolean parsed from text. Produced by [`LexicalBool::from_str`];
/// convertible back to the primitive with [`LexicalBool::as_bool`] and
/// comparable against `bool` and against itself.
#[derive(Clone, Copy, Debug)]
pub struct LexicalBool(bool);

impl View for LexicalBool {
    type V = bool;

    closed spec fn view(&self) -> bool {
        self.0
    }
}

impl LexicalBool {
    /// The primitive boolean this value wraps.
    pub fn as_bool(&self) -> (value: bool)
        ensures
            value == self@,
    {
        self.0
    }

    /// Parse `s` against the context's token lists.
    ///
    /// The truthy slot is settled first: if still unset it is fixed to the
    /// built-in truthy tokens. A match there returns `true` at once, and the
    /// falsey slot is left as it was. Only otherwise is the falsey slot
    /// settled the same way and consulted; with no match in either list the
    /// parse fails, handing the unmodified input back in the error.
    pub fn from_str(ctx: &mut BoolContext, s: &str) -> (result: Result<LexicalBool, Error>)
        ensures
            final (ctx).truthy_slot() == Some(old(ctx).effective_truthy()),
            old(ctx).classification(s@) == Some(true) ==> final (ctx).falsey_slot() == old(
                ctx,
            ).falsey_slot(),
            old(ctx).classification(s@) != Some(true) ==> final (ctx).falsey_slot() == Some(
                old(ctx).effective_falsey(),
            ),
            match result {
                Ok(value) => old(ctx).classification(s@) == Some(value@),
                Err(error) => old(ctx).classification(s@) is None && error.input_of() == s@,
            },
    {
        let truthy = cell::cell_get_or_init(&mut ctx.truthy, defaults::truthy_values());
        if fold::contains_lowered(truthy, s) {
            return Ok(LexicalBool(true));
        }
        let falsey = cell::cell_get_or_init(&mut ctx.falsey, defaults::falsey_values());
        if fold::contains_lowered(falsey, s) {
            return Ok(LexicalBool(false));
        }
        Err(Error::InvalidInput(s.to_owned()))
    }
}

impl PartialEq for LexicalBool {
    fn eq(&self, other: &LexicalBool) -> bool {
        self.0 == other.0
    }
}

impl vstd::std_specs::cmp::PartialEqSpecImpl for LexicalBool {
    open spec fn obeys_eq_spec() -> bool {
        true
    }

    open spec fn eq_spec(&self, other: &LexicalBool) -> bool {
        self@ == other@
    }
}

impl PartialEq<bool> for LexicalBool {
    fn eq(&self, other: &bool) -> bool {
        self.0 == *other
    }
}

impl vstd::std_specs::cmp::PartialEqSpecImpl<bool> for LexicalBool {
    open spec fn obeys_eq_spec() -> bool {
        true
    }

    open spec fn eq_spec(&self, other: &bool) -> bool {
        self@ == *other
    }
}

impl Default for LexicalBool {
    /// The default value wraps `false`.
    fn default() -> (value: LexicalBool)
        ensures
            value@ == false,
    {
        LexicalBool(false)
    }
}

/// The one way a parse fails.
#[derive(Clone, Debug)]
pub enum Error {
    /// The input matched neither token list; carries the rejected input,
    /// exactly as it was handed to the parse.
    InvalidInput(String),
}

impl Error {
    /// The rejected input the error carries.
    pub closed spec fn input_of(&self) -> Seq<char> {
        match self {
            Error::InvalidInput(input) => input@,
        }
    }

    /// The rejected input, unmodified.
    pub fn input(&self) -> (input: &String)
        ensures
            input@ == self.input_of(),
    {
        match self {
            Error::InvalidInput(input) => input,
        }
    }

    /// A human-readable description naming the rejected input and the
    /// built-in tokens. Each token is rendered with a doubled closing
    /// quote; the doubling is part of the fixed message format.
    pub fn message(&self) -> (message: String)
        ensures
            message@ == "not a boolean: "@ + self.input_of()
                + ". only 'true'', 't'', '1'', 'yes'', 'false'', 'f'', '0'', 'no'' are allowed"@,
    {
        let mut message = String::from_str("not a boolean: ");
        message.append(self.input().as_str());
        message.append(". only 'true'', 't'', '1'', 'yes'', 'false'', 'f'', '0'', 'no'' are allowed");
        message
    }
}

impl PartialEq for Error {
    fn eq(&self, other: &Error) -> bool {
        match (self, other) {
            (Error::InvalidInput(a), Error::InvalidInput(b)) => a.eq(b),
        }
    }
}

impl vstd::std_specs::cmp::PartialEqSpecImpl for Error {
    open spec fn obeys_eq_spec() -> bool {
        true
    }

    open spec fn eq_spec(&self, other: &Error) -> bool {
        self.input_of() == other.input_of()
    }
}

/// Law: classification depends on nothing but the context's two slots. Two
/// contexts whose slots agree classify every string alike; in particular a
/// context is never affected by what another context was configured with,
/// and a failed initialization, which leaves both slots as they were,
/// changes no later parse result.
pub proof fn lemma_classification_depends_only_on_slots(a: BoolContext, b: BoolContext)
    requires
        a.truthy_slot() == b.truthy_slot(),
        a.falsey_slot() == b.falsey_slot(),
    ensures
        forall|s: Seq<char>| a.classification(s) == b.classification(s),
{
}

/// Law: any string whose ASCII-folded form is a built-in truthy token — any
/// case variant of `true`, `t`, `1` or `yes` — is classified as true by a
/// context whose truthy slot is unset or holds the built-in list.
pub proof fn lemma_default_truthy_accepted(ctx: BoolContext, s: Seq<char>)
    requires
        ctx.truthy_slot() is None || ctx.truthy_slot() == Some(default_truthy()),
        default_truthy().contains(lower(s)),
    ensures
        ctx.classification(s) == Some(true),
{
}

/// Law: any string whose ASCII-folded form is a built-in falsey token — any
/// case variant of `false`, `f`, `0` or `no` — is classified as false by a
/// context whose two slots are each unset or hold their built-in list.
pub proof fn lemma_default_falsey_accepted(ctx: BoolContext, s: Seq<char>)
    requires
        ctx.truthy_slot() is None || ctx.truthy_slot() == Some(default_truthy()),
        ctx.falsey_slot() is None || ctx.falsey_slot() == Some(default_falsey()),
        default_falsey().contains(lower(s)),
    ensures
        ctx.classification(s) == Some(false),
{
    defaults::lemma_defaults_disjoint(lower(s));
}

/// Law: a string whose ASCII-folded form is in neither effective list is
/// classified as neither boolean, whatever the two slots hold.
pub proof fn lemma_unrecognized_rejected(ctx: BoolContext, s: Seq<char>)
    requires
        !ctx.effective_truthy().contains(lower(s)),
        !ctx.effective_falsey().contains(lower(s)),
    ensures
        ctx.classification(s) is None,
{
}

/// Law: customizing the truthy list does not disturb the falsey side. In a
/// context whose falsey slot is unset or holds the built-in list, every
/// string folding to an effective truthy token classifies as true, and every
/// string folding to a built-in falsey token but to no effective truthy
/// token still classifies as false.
pub proof fn lemma_custom_truthy_keeps_default_falsey(ctx: BoolContext, s: Seq<char>)
    requires
        ctx.falsey_slot() is None || ctx.falsey_slot() == Some(default_falsey()),
    ensures
        ctx.effective_truthy().contains(lower(s)) ==> ctx.classification(s) == Some(true),
        (!ctx.effective_truthy().contains(lower(s)) && default_falsey().contains(lower(s)))
            ==> ctx.classification(s) == Some(false),
{
}

/// Law: parsing is idempotent. A parse pins the truthy slot to its effective
/// list and either pins the falsey slot to its effective list or leaves it
/// untouched, so any context that comes out of a parse classifies every
/// string — the parsed one included — exactly as the context that went in.
pub proof fn lemma_parse_idempotent(pre: BoolContext, post: BoolContext)
    requires
        post.truthy_slot() == Some(pre.effective_truthy()),
        post.falsey_slot() == Some(pre.effective_falsey()) || post.falsey_slot()
            == pre.falsey_slot(),
    ensures
        forall|s: Seq<char>| post.classification(s) == pre.classification(s),
{
}

} // verus!
