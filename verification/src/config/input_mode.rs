use vstd::prelude::*;

use crate::text::push_chars;

verus! {

/// What `vi::transform_buffer` appends to its output for `input` under the
/// Telex definition (`vi::TELEX`).
pub uninterp spec fn telex_output(input: Seq<char>) -> Seq<char>;

/// What `vi::transform_buffer` appends to its output for `input` under the
/// VNI definition (`vi::VNI`).
pub uninterp spec fn vni_output(input: Seq<char>) -> Seq<char>;

/// Calls `vi::transform_buffer(&vi::TELEX, input, output)`. The crate's
/// source pushes the composed text onto `output` and leaves the rest of it
/// alone; the composed text depends on the input characters alone.
#[verifier::external_body]
fn vi_transform_telex(input: Vec<char>, output: &mut String)
    ensures
        final(output)@ == old(output)@ + telex_output(input@),
{
    vi::transform_buffer(&vi::TELEX, input, output);
}

/// Calls `vi::transform_buffer(&vi::VNI, input, output)`; see
/// `vi_transform_telex` for what is claimed of it.
#[verifier::external_body]
fn vi_transform_vni(input: Vec<char>, output: &mut String)
    ensures
        final(output)@ == old(output)@ + vni_output(input@),
{
    vi::transform_buffer(&vi::VNI, input, output);
}

/// Turns the characters typed so far into the text shown to the user.
pub trait Transformer {
    /// The text that `transform` appends for `input`.
    spec fn transformed(&self, input: Seq<char>) -> Seq<char>;

    fn transform(&self, input: Vec<char>, output: &mut String)
        ensures
            final(output)@ == old(output)@ + self.transformed(input@),
    ;
}

/// The typing method in use.
#[derive(Debug, Clone, Copy, PartialEq, Eq, Structural)]
pub enum InputMode {
    English,
    Vni,
    Telex,
}

/// The text that a mode composes from the characters typed so far.
pub open spec fn mode_output(mode: InputMode, input: Seq<char>) -> Seq<char> {
    match mode {
        InputMode::English => input,
        InputMode::Vni => vni_output(input),
        InputMode::Telex => telex_output(input),
    }
}

pub struct EnglishTransformer;

pub struct VniTransformer;

pub struct TelexTransformer;

impl Transformer for EnglishTransformer {
    open spec fn transformed(&self, input: Seq<char>) -> Seq<char> {
        input
    }

    fn transform(&self, input: Vec<char>, output: &mut String) {
        push_chars(output, &input);
    }
}

impl Transformer for VniTransformer {
    open spec fn transformed(&self, input: Seq<char>) -> Seq<char> {
        vni_output(input)
    }

    fn transform(&self, input: Vec<char>, output: &mut String) {
        vi_transform_vni(input, output);
    }
}

impl Transformer for TelexTransformer {
    open spec fn transformed(&self, input: Seq<char>) -> Seq<char> {
        telex_output(input)
    }

    fn transform(&self, input: Vec<char>, output: &mut String) {
        vi_transform_telex(input, output);
    }
}

/// The transformer that `InputMode::get_transformer` hands out: one of the
/// three transformers above, chosen by the mode.
pub enum ModeTransformer {
    English(EnglishTransformer),
    Vni(VniTransformer),
    Telex(TelexTransformer),
}

impl Transformer for ModeTransformer {
    open spec fn transformed(&self, input: Seq<char>) -> Seq<char> {
        match self {
            ModeTransformer::English(t) => t.transformed(input),
            ModeTransformer::Vni(t) => t.transformed(input),
            ModeTransformer::Telex(t) => t.transformed(input),
        }
    }

    fn transform(&self, input: Vec<char>, output: &mut String) {
        match self {
            ModeTransformer::English(t) => t.transform(input, output),
            ModeTransformer::Vni(t) => t.transform(input, output),
            ModeTransformer::Telex(t) => t.transform(input, output),
        }
    }
}

impl InputMode {
    /// The transformer of this mode: English copies the typed characters,
    /// VNI and Telex compose Vietnamese text with the `vi` crate.
    pub fn get_transformer(&self) -> (t: ModeTransformer)
        ensures
            forall|input: Seq<char>| #[trigger] t.transformed(input) == mode_output(*self, input),
    {
        match self {
            InputMode::English => ModeTransformer::English(EnglishTransformer),
            InputMode::Vni => ModeTransformer::Vni(VniTransformer),
            InputMode::Telex => ModeTransformer::Telex(TelexTransformer),
        }
    }
}

} // verus!
