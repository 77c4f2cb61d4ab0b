//! Device and format negotiation: which stream configuration each side
//! runs, which output device is used, and the formats of the two
//! recordings that follow from them.

use crate::recorder::{recording_spec, recording_spec_of, RecordingSpec};
use vstd::prelude::*;

verus! {

/// The hardware sample formats the engine can run.
#[derive(Clone, Copy, Debug, PartialEq, Eq, Structural)]
pub enum SampleFormat {
    F32,
    I16,
    U16,
    U8,
}

/// One entry of a device's supported configurations; `format` is `None`
/// for a sample format the engine cannot run.
#[derive(Clone, Copy, Debug)]
pub struct ConfigRange {
    pub channels: u16,
    pub min_sample_rate: u32,
    pub max_sample_rate: u32,
    pub format: Option<SampleFormat>,
}

/// The configuration a stream is opened with.
#[derive(Clone, Copy, Debug, PartialEq, Eq, Structural)]
pub struct StreamSetup {
    pub channels: u16,
    pub sample_rate: u32,
    pub format: SampleFormat,
}

/// Why no configuration could be chosen for one side.
#[derive(Clone, Copy, Debug, PartialEq, Eq, Structural)]
pub enum SetupError {
    /// The device reports no supported configuration.
    NoConfig,
    /// The chosen configuration has a sample format the engine cannot run.
    UnsupportedFormat,
}

/// Why a session could not be negotiated.
#[derive(Clone, Copy, Debug, PartialEq, Eq, Structural)]
pub enum NegotiationError {
    Input(SetupError),
    Output(SetupError),
}

/// Everything negotiated for one session.
#[derive(Clone, Copy, Debug, PartialEq, Eq, Structural)]
pub struct SessionPlan {
    pub input: StreamSetup,
    pub output: StreamSetup,
    /// The format of the recording of the unperturbed input.
    pub original_track: RecordingSpec,
    /// The format of the recording of the perturbed output.
    pub perturbed_track: RecordingSpec,
}

/// The configuration chosen from a device's supported ranges: the first
/// entry, at its maximum sample rate.
pub open spec fn chosen_setup(ranges: Seq<ConfigRange>) -> Result<StreamSetup, SetupError> {
    if ranges.len() == 0 {
        Err(SetupError::NoConfig)
    } else {
        match ranges[0].format {
            None => Err(SetupError::UnsupportedFormat),
            Some(format) => Ok(
                StreamSetup {
                    channels: ranges[0].channels,
                    sample_rate: ranges[0].max_sample_rate,
                    format,
                },
            ),
        }
    }
}

/// Chooses the configuration to open a stream with: the first supported
/// range, at its maximum sample rate.
pub fn choose_stream_setup(ranges: &[ConfigRange]) -> (r: Result<StreamSetup, SetupError>)
    ensures
        r == chosen_setup(ranges@),
{
    if ranges.len() == 0 {
        return Err(SetupError::NoConfig);
    }
    let first = ranges[0];
    match first.format {
        None => Err(SetupError::UnsupportedFormat),
        Some(format) => Ok(
            StreamSetup { channels: first.channels, sample_rate: first.max_sample_rate, format },
        ),
    }
}

/// Negotiates a session from the supported ranges of the input and output
/// devices. Both recordings have the input's channel count; the original
/// track runs at a third of the input rate, the perturbed track at a third
/// of the output rate. Input errors are reported before output errors.
pub fn plan_session(input: &[ConfigRange], output: &[ConfigRange]) -> (r: Result<
    SessionPlan,
    NegotiationError,
>)
    ensures
        chosen_setup(input@) matches Err(e) ==> r == Err::<SessionPlan, NegotiationError>(
            NegotiationError::Input(e),
        ),
        chosen_setup(input@) is Ok ==> (chosen_setup(output@) matches Err(e) ==> r == Err::<
            SessionPlan,
            NegotiationError,
        >(NegotiationError::Output(e))),
        r matches Ok(plan) ==> {
            &&& chosen_setup(input@) == Ok::<StreamSetup, SetupError>(plan.input)
            &&& chosen_setup(output@) == Ok::<StreamSetup, SetupError>(plan.output)
            &&& plan.original_track == recording_spec_of(plan.input.channels, plan.input.sample_rate)
            &&& plan.perturbed_track == recording_spec_of(plan.input.channels, plan.output.sample_rate)
        },
        r is Ok <==> (chosen_setup(input@) is Ok && chosen_setup(output@) is Ok),
{
    let input_setup = match choose_stream_setup(input) {
        Ok(s) => s,
        Err(e) => return Err(NegotiationError::Input(e)),
    };
    let output_setup = match choose_stream_setup(output) {
        Ok(s) => s,
        Err(e) => return Err(NegotiationError::Output(e)),
    };
    Ok(
        SessionPlan {
            input: input_setup,
            output: output_setup,
            original_track: recording_spec(input_setup.channels, input_setup.sample_rate),
            perturbed_track: recording_spec(input_setup.channels, output_setup.sample_rate),
        },
    )
}

/// Picks the output device among the enumerated ones: the last whose name
/// is exactly `preferred`, or `None` to keep the default output device.
pub fn choose_output_device(names: &Vec<String>, preferred: &String) -> (r: Option<usize>)
    ensures
        r is None <==> forall|i: int| 0 <= i < names@.len() ==> names@[i]@ != preferred@,
        r matches Some(i) ==> {
            &&& i < names@.len()
            &&& names@[i as int]@ == preferred@
            &&& forall|j: int| i < j < names@.len() ==> names@[j]@ != preferred@
        },
{
    let mut found: Option<usize> = None;
    let mut i: usize = 0;
    while i < names.len()
        invariant
            i <= names@.len(),
            found is None <==> forall|k: int| 0 <= k < i ==> names@[k]@ != preferred@,
            found matches Some(f) ==> {
                &&& f < i
                &&& names@[f as int]@ == preferred@
                &&& forall|j: int| f < j < i ==> names@[j]@ != preferred@
            },
        decreases names@.len() - i,
    {
        if names[i] == *preferred {
            found = Some(i);
        }
        i = i + 1;
    }
    found
}

} // verus!
