//! The generator command's output routing: which kind of content each
//! requested output file receives.

use vstd::prelude::*;

verus! {

/// What a requested output file receives.
#[derive(Clone, Copy, PartialEq, Eq, Structural, Debug)]
pub enum Kind {
    /// The generated header.
    GeneratedHeader,
    /// The generated implementation.
    GeneratedImplementation,
    /// The static support header.
    Header,
}

/// Where an output goes: the standard output stream, or a file under the
/// given path (as bytes).
pub enum Output {
    Stdout,
    File(Vec<u8>),
}

/// Whether `s` ends with `suffix`.
pub open spec fn spec_ends_with(s: Seq<u8>, suffix: Seq<u8>) -> bool {
    suffix.len() <= s.len() && s.skip(s.len() - suffix.len()) == suffix
}

/// Whether an output's path ends with `suffix`; the standard output
/// stream has no path.
pub open spec fn spec_output_ends_with(o: Output, suffix: Seq<u8>) -> bool {
    match o {
        Output::Stdout => false,
        Output::File(path) => spec_ends_with(path@, suffix),
    }
}

/// The kind of content an output receives: the static support header
/// when no input file was given; else the generated header when the
/// header flag is set or the output path has a header extension; else
/// the generated implementation.
pub open spec fn spec_classify(has_input: bool, header_flag: bool, o: Output) -> Kind {
    if !has_input {
        Kind::Header
    } else if header_flag || spec_output_ends_with(o, ".h"@.map_values(|c: char| c as u8))
        || spec_output_ends_with(o, ".hh"@.map_values(|c: char| c as u8))
        || spec_output_ends_with(o, ".hpp"@.map_values(|c: char| c as u8)) {
        Kind::GeneratedHeader
    } else {
        Kind::GeneratedImplementation
    }
}

/// Whether the byte string `s` ends with `suffix`.
pub fn ends_with(s: &[u8], suffix: &[u8]) -> (r: bool)
    ensures
        r == spec_ends_with(s@, suffix@),
{
    if suffix.len() > s.len() {
        return false;
    }
    let offset = s.len() - suffix.len();
    let mut i: usize = 0;
    while i < suffix.len()
        invariant
            s@.len() <= usize::MAX,
            suffix@.len() <= s@.len(),
            offset == s@.len() - suffix@.len(),
            i <= suffix@.len(),
            forall|j: int| 0 <= j < i ==> s@[offset + j] == suffix@[j],
        decreases suffix@.len() - i,
    {
        if s[offset + i] != suffix[i] {
            proof {
                assert(s@.skip(s@.len() - suffix@.len())[i as int] == s@[offset + i]);
            }
            return false;
        }
        i = i + 1;
    }
    proof {
        assert(s@.skip(s@.len() - suffix@.len()) =~= suffix@);
    }
    true
}

/// The kind of content this output receives.
pub fn classify_output(has_input: bool, header_flag: bool, output: &Output) -> (r: Kind)
    ensures
        r == spec_classify(has_input, header_flag, *output),
{
    if !has_input {
        return Kind::Header;
    }
    if header_flag {
        return Kind::GeneratedHeader;
    }
    let is_header_path = match output {
        Output::Stdout => false,
        Output::File(path) => {
            let dot_h: [u8; 2] = [46, 104];
            let dot_hh: [u8; 3] = [46, 104, 104];
            let dot_hpp: [u8; 4] = [46, 104, 112, 112];
            let r = ends_with(path.as_slice(), dot_h.as_slice()) || ends_with(
                path.as_slice(),
                dot_hh.as_slice(),
            ) || ends_with(path.as_slice(), dot_hpp.as_slice());
            proof {
                reveal_strlit(".h");
                reveal_strlit(".hh");
                reveal_strlit(".hpp");
                assert(dot_h@ =~= ".h"@.map_values(|c: char| c as u8));
                assert(dot_hh@ =~= ".hh"@.map_values(|c: char| c as u8));
                assert(dot_hpp@ =~= ".hpp"@.map_values(|c: char| c as u8));
            }
            r
        },
    };
    if is_header_path {
        Kind::GeneratedHeader
    } else {
        Kind::GeneratedImplementation
    }
}

/// The routing of a whole output list: the kind each output receives,
/// and whether any generated header or generated implementation is
/// needed at all.
pub struct OutputPlan {
    /// The kind for each requested output, in order.
    pub kinds: Vec<Kind>,
    /// Some output receives the generated header.
    pub gen_header: bool,
    /// Some output receives the generated implementation.
    pub gen_implementation: bool,
}

/// Route every requested output.
pub fn classify_outputs(has_input: bool, header_flag: bool, outputs: &Vec<Output>) -> (r:
    OutputPlan)
    ensures
        r.kinds@.len() == outputs@.len(),
        forall|i: int|
            0 <= i < outputs@.len() ==> r.kinds@[i] == #[trigger] spec_classify(
                has_input,
                header_flag,
                outputs@[i],
            ),
        r.gen_header == exists|i: int|
            0 <= i < outputs@.len() && #[trigger] spec_classify(has_input, header_flag, outputs@[i])
                == Kind::GeneratedHeader,
        r.gen_implementation == exists|i: int|
            0 <= i < outputs@.len() && #[trigger] spec_classify(has_input, header_flag, outputs@[i])
                == Kind::GeneratedImplementation,
{
    let mut kinds: Vec<Kind> = Vec::new();
    let mut gen_header = false;
    let mut gen_implementation = false;
    let mut i: usize = 0;
    while i < outputs.len()
        invariant
            i <= outputs@.len(),
            kinds@.len() == i,
            forall|j: int|
                0 <= j < i ==> kinds@[j] == #[trigger] spec_classify(
                    has_input,
                    header_flag,
                    outputs@[j],
                ),
            gen_header == exists|j: int|
                0 <= j < i && #[trigger] spec_classify(has_input, header_flag, outputs@[j])
                    == Kind::GeneratedHeader,
            gen_implementation == exists|j: int|
                0 <= j < i && #[trigger] spec_classify(has_input, header_flag, outputs@[j])
                    == Kind::GeneratedImplementation,
        decreases outputs@.len() - i,
    {
        let kind = classify_output(has_input, header_flag, &outputs[i]);
        match kind {
            Kind::GeneratedHeader => {
                gen_header = true;
            },
            Kind::GeneratedImplementation => {
                gen_implementation = true;
            },
            Kind::Header => (),
        }
        kinds.push(kind);
        i = i + 1;
    }
    OutputPlan { kinds, gen_header, gen_implementation }
}

} // verus!

