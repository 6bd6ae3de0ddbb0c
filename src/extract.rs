//! The extraction pipeline: an ordered fold of declarative steps over the
//! downloaded bytes. Writing the resulting file is left to the caller.
use vstd::prelude::*;
use crate::config::ExtractStep;

verus! {

/// What `zstd::decode_all` makes of a byte sequence: the decompressed
/// payload, or `None` where the input is not valid zstd data.
pub uninterp spec fn zstd_decoded(data: Seq<u8>) -> Option<Seq<u8>>;

#[verifier::external_type_specification]
#[verifier::external_body]
pub struct ExIoError(std::io::Error);

/// Relies on `zstd::decode_all` over an in-memory slice: the whole
/// decompressed payload, a function of the input bytes alone.
#[verifier::external_body]
fn zstd_decode_all(data: &Vec<u8>) -> (r: Result<Vec<u8>, std::io::Error>)
    ensures
        r is Ok <==> zstd_decoded(data@) is Some,
        r matches Ok(v) ==> zstd_decoded(data@) == Some(v@),
{
    zstd::decode_all(data.as_slice())
}

/// The pipeline's state as values.
pub struct ExtractView {
    /// The current payload.
    pub buffer: Seq<u8>,
    /// Whether the payload has been written to the temporary file.
    pub written: bool,
    /// Whether the temporary file is to be made executable.
    pub executable: bool,
    /// The name the file is to be kept under in the cache directory.
    pub final_name: Option<Seq<char>>,
}

/// The state before any step, over the downloaded bytes.
pub open spec fn initial_view(data: Seq<u8>) -> ExtractView {
    ExtractView { buffer: data, written: false, executable: false, final_name: None }
}

/// The effect of one step; `None` when decompression fails.
pub open spec fn step_effect(s: ExtractView, step: ExtractStep) -> Option<ExtractView> {
    match step {
        ExtractStep::ZstdDecompress => match zstd_decoded(s.buffer) {
            Some(b) => Some(ExtractView { buffer: b, written: true, ..s }),
            None => None,
        },
        ExtractStep::MakeExecutable(name) => Some(
            ExtractView { executable: true, final_name: Some(name@), ..s },
        ),
    }
}

/// The effect of the steps, applied strictly in order; `None` when one of
/// them fails.
pub open spec fn steps_effect(s: ExtractView, steps: Seq<ExtractStep>) -> Option<ExtractView>
    decreases steps.len(),
{
    if steps.len() == 0 {
        Some(s)
    } else {
        match step_effect(s, steps[0]) {
            Some(t) => steps_effect(t, steps.drop_first()),
            None => None,
        }
    }
}

/// Pipeline state: the payload, and what is owed to the temporary file.
#[derive(Debug, Clone)]
pub struct ExtractState {
    pub buffer: Vec<u8>,
    pub written: bool,
    pub executable: bool,
    pub final_name: Option<String>,
}

impl View for ExtractState {
    type V = ExtractView;

    open spec fn view(&self) -> ExtractView {
        ExtractView {
            buffer: self.buffer@,
            written: self.written,
            executable: self.executable,
            final_name: match self.final_name {
                Some(n) => Some(n@),
                None => None,
            },
        }
    }
}

/// Why the steps cannot be carried out.
#[derive(Debug, Clone, Copy, PartialEq, Eq)]
pub enum ExtractError {
    /// The payload is not valid zstd data.
    Decompress,
}

impl ExtractState {
    /// The state before any step, over the downloaded bytes.
    pub fn new(data: Vec<u8>) -> (r: Self)
        ensures
            r@ == initial_view(data@),
    {
        ExtractState { buffer: data, written: false, executable: false, final_name: None }
    }

    /// The state after a decompression produced `out`: `out` is the new
    /// payload, and it replaces the temporary file's content.
    pub fn decompressed(self, out: Vec<u8>) -> (r: Self)
        ensures
            r@ == (ExtractView { buffer: out@, written: true, ..self@ }),
    {
        ExtractState { buffer: out, written: true, ..self }
    }

    /// The state after a make-executable step naming `name`; a later such
    /// step overrides the name.
    pub fn made_executable(self, name: String) -> (r: Self)
        ensures
            r@ == (ExtractView { executable: true, final_name: Some(name@), ..self@ }),
    {
        ExtractState { executable: true, final_name: Some(name), ..self }
    }

    /// The bytes the temporary file holds: the last payload written, or
    /// nothing when no step wrote one.
    pub fn file_contents(&self) -> (r: &[u8])
        ensures
            r@ == (if self.written {
                self.buffer@
            } else {
                Seq::<u8>::empty()
            }),
    {
        if self.written {
            self.buffer.as_slice()
        } else {
            &[]
        }
    }
}

/// Runs `steps` in order over `data`. On success the state says what the
/// temporary file holds, whether it is made executable, and under which
/// name, if any, it is kept in the cache directory.
pub fn extract(data: Vec<u8>, steps: &Vec<ExtractStep>) -> (r: Result<ExtractState, ExtractError>)
    ensures
        match steps_effect(initial_view(data@), steps@) {
            Some(v) => r matches Ok(s) && s@ == v,
            None => r == Err::<ExtractState, ExtractError>(ExtractError::Decompress),
        },
{
    let ghost start = initial_view(data@);
    let mut state = ExtractState::new(data);
    let mut i: usize = 0;
    assert(steps@.subrange(0, steps@.len() as int) =~= steps@);
    while i < steps.len()
        invariant
            0 <= i <= steps@.len(),
            start == initial_view(data@),
            steps_effect(start, steps@) == steps_effect(state@, steps@.subrange(i as int, steps@.len() as int)),
        decreases steps@.len() - i,
    {
        let ghost rest = steps@.subrange(i as int, steps@.len() as int);
        assert(rest.drop_first() =~= steps@.subrange(i + 1, steps@.len() as int));
        assert(rest[0] == steps@[i as int]);
        match &steps[i] {
            ExtractStep::ZstdDecompress => match zstd_decode_all(&state.buffer) {
                Ok(out) => {
                    state = state.decompressed(out);
                },
                Err(_) => {
                    assert(step_effect(state@, rest[0]) is None);
                    assert(steps_effect(state@, rest) is None);
                    return Err(ExtractError::Decompress);
                },
            },
            ExtractStep::MakeExecutable(name) => {
                state = state.made_executable(name.clone());
            },
        }
        i = i + 1;
    }
    assert(steps@.subrange(i as int, steps@.len() as int) =~= Seq::<ExtractStep>::empty());
    Ok(state)
}

} // verus!

verus! {

/// Decompressing a valid payload and then marking it executable under
/// `name` leaves the decompressed bytes in the file, executable, to be kept
/// under `name`.
pub proof fn lemma_decompress_then_make_executable(data: Seq<u8>, name: String)
    requires
        zstd_decoded(data) is Some,
    ensures
        steps_effect(initial_view(data), seq![ExtractStep::ZstdDecompress, ExtractStep::MakeExecutable(name)])
            == Some(
            ExtractView {
                buffer: zstd_decoded(data)->0,
                written: true,
                executable: true,
                final_name: Some(name@),
            },
        ),
{
    let steps = seq![ExtractStep::ZstdDecompress, ExtractStep::MakeExecutable(name)];
    assert(steps.drop_first() =~= seq![ExtractStep::MakeExecutable(name)]);
    assert(steps.drop_first().drop_first() =~= Seq::<ExtractStep>::empty());
    reveal_with_fuel(steps_effect, 3);
}

} // verus!
