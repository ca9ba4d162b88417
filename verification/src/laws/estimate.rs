//! The estimated size of the output.

use crate::draw_output_options::{size_plan, SizePlan, SourceFacts, TargetFormat};
use crate::size::{estimate_text, nearest, nearest_is_near, size_text};
use crate::text::decimal;
use vstd::prelude::*;

verus! {

/// The plan computes with this sample rate, where it computes with one.
pub open spec fn plan_rate(plan: SizePlan) -> Option<u32> {
    match plan {
        SizePlan::Dsd { rate, .. } => Some(rate),
        SizePlan::Lossy { .. } => None,
        SizePlan::Scaled { target_rate, .. } => Some(target_rate),
        SizePlan::Raw { rate, .. } => Some(rate),
    }
}

/// The plan computes with this bit depth, where it computes with one.
pub open spec fn plan_bits(plan: SizePlan) -> Option<u32> {
    match plan {
        SizePlan::Scaled { target_bits, .. } => Some(target_bits),
        SizePlan::Raw { bits, .. } => Some(bits),
        _ => None,
    }
}

/// A rate or depth that the target names is the one that the plan computes with; one that it
/// leaves open is that of the source.
pub proof fn plan_takes_from_the_source_what_is_left_open(
    source: &SourceFacts,
    size: u64,
    target: TargetFormat,
)
    ensures
        size_plan(Some(source), size, target) matches Some(plan) ==> {
            &&& (plan_rate(plan) matches Some(rate) ==> (target.sample_rate == Some(rate) || (
            target.sample_rate is None && rate == source.sample_rate)))
            &&& (plan_bits(plan) matches Some(bits) ==> (target.bit_depth == Some(bits) || (
            target.bit_depth is None && source.bit_depth == Some(bits))))
            &&& (plan matches SizePlan::Scaled { source_rate, source_bits, .. } ==> source_rate
                == source.sample_rate && source.bit_depth == Some(source_bits))
            &&& (plan matches SizePlan::Raw { channels, .. } ==> channels == source.channels)
            &&& (plan matches SizePlan::Dsd { channels, .. } ==> channels == source.channels)
        },
{
}

/// With rate and depth left to the source, an estimate in proportion to the source is the size of
/// the source itself.
pub proof fn unchanged_audio_keeps_its_size(source: &SourceFacts, size: u64, target: TargetFormat)
    requires
        target.sample_rate is None,
        target.bit_depth is None,
    ensures
        size_plan(Some(source), size, target) matches Some(
            SizePlan::Scaled { target_rate, target_bits, source_rate, source_bits },
        ) ==> target_rate * target_bits == source_rate * source_bits,
{
}

/// There is an estimate exactly where the duration and the size of the source are known and, for
/// formats that keep every sample in words of some depth, the depth is known too.
pub proof fn estimate_needs_what_it_computes_with(
    info: Option<&SourceFacts>,
    size: u64,
    target: TargetFormat,
)
    ensures
        size_plan(info, size, target) is Some <==> {
            &&& info is Some
            &&& info->0.has_duration
            &&& size > 0
            &&& (target.bit_depth is Some || info->0.bit_depth is Some || target.format is Mp3
                || target.format is Aac || target.format is Opus || target.format is Dsf
                || target.format is Dff)
        },
{
}

/// Which way the size is estimated follows from the target: lossy formats by their bit rate,
/// one-bit formats by their samples, and the others from samples or in proportion to the source.
/// In proportion only where both sides are compressed without loss.
pub proof fn plan_suits_the_target(source: &SourceFacts, size: u64, target: TargetFormat)
    ensures
        size_plan(Some(source), size, target) matches Some(plan) ==> {
            &&& (plan is Dsd <==> target.format is Dsf || target.format is Dff)
            &&& (plan is Lossy <==> target.format is Mp3 || target.format is Aac
                || target.format is Opus)
            &&& (target.format is Mp3 ==> plan == SizePlan::Lossy { bitrate: 320_000 })
            &&& (target.format is Aac ==> plan == SizePlan::Lossy { bitrate: 256_000 })
            &&& (target.format is Opus ==> plan == SizePlan::Lossy { bitrate: 128_000 })
            &&& (plan is Scaled ==> (target.format is Flac || target.format is Alac
                || target.format is WavPack) && source.sample_rate > 0 && !(
            "SACD"@.is_prefix_of(source.format_name@)) && !("pcm_"@.is_prefix_of(source.codec@)))
            &&& (plan matches SizePlan::Raw { compressed, .. } ==> (compressed <==> (
            target.format is Flac || target.format is Alac || target.format is WavPack)))
            &&& ((target.format is Flac || target.format is Alac || target.format is WavPack)
                && source.sample_rate > 0 && source.bit_depth is Some && !("SACD"@.is_prefix_of(
                source.format_name@,
            )) && !("pcm_"@.is_prefix_of(source.codec@)) ==> plan is Scaled)
        },
{
    lemma_starts(source.format_name@, "SACD"@);
    lemma_starts(source.codec@, "pcm_"@);
}

proof fn lemma_starts(text: Seq<char>, prefix: Seq<char>)
    ensures
        crate::draw_output_options::starts(text, prefix) == prefix.is_prefix_of(text),
{
    if prefix.len() <= text.len() {
        assert(text.take(prefix.len() as int) =~= text.subrange(0, prefix.len() as int));
    }
}

/// A size is given in the largest unit that it fills, and is at most half of the last digit away
/// from the size itself, for sizes that a floating-point number holds exactly.
pub proof fn size_is_near_what_it_says(bytes: nat) -> (tenths: nat)
    requires
        bytes < 9_007_199_254_740_992,
    ensures
        bytes < 1_024 ==> size_text(bytes) == decimal(bytes) + " B"@,
        1_024 <= bytes < 1_048_576 ==> size_text(bytes) == decimal(tenths / 10) + "."@ + decimal(
            tenths % 10,
        ) + " KB"@ && -1_024 <= 2 * (tenths * 1_024 - 10 * bytes) <= 1_024,
        1_048_576 <= bytes < 1_073_741_824 ==> size_text(bytes) == decimal(tenths / 10) + "."@
            + decimal(tenths % 10) + " MB"@ && -1_048_576 <= 2 * (tenths * 1_048_576 - 10 * bytes)
            <= 1_048_576,
        1_073_741_824 <= bytes ==> size_text(bytes) == decimal(tenths / 10) + "."@ + decimal(
            tenths % 10,
        ) + " GB"@ && -1_073_741_824 <= 2 * (tenths * 1_073_741_824 - 10 * bytes)
            <= 1_073_741_824,
{
    let unit: nat = if bytes >= 1_073_741_824 {
        1_073_741_824
    } else if bytes >= 1_048_576 {
        1_048_576
    } else {
        1_024
    };
    assert(nearest(bytes, 1) == bytes);
    assert(bytes / 1 == bytes);
    assert(crate::size::float_step(bytes, 1) == 1);
    assert(crate::size::as_float(bytes) == bytes);
    nearest_is_near(bytes * 10, unit);
    nearest(bytes * 10, unit)
}

/// An estimated size is marked as such, given in the largest unit that it fills, and at most half
/// of the last digit away from the size itself.
pub proof fn estimate_is_near_what_it_says(bytes: nat) -> (figure: nat)
    requires
        bytes < 9_007_199_254_740_992,
    ensures
        bytes < 1_024 ==> estimate_text(bytes) == "~"@ + decimal(bytes) + " B"@,
        1_024 <= bytes < 1_048_576 ==> estimate_text(bytes) == "~"@ + decimal(figure) + " KB"@
            && -1_024 <= 2 * (figure * 1_024 - bytes) <= 1_024,
        1_048_576 <= bytes < 1_073_741_824 ==> estimate_text(bytes) == "~"@ + decimal(figure)
            + " MB"@ && -1_048_576 <= 2 * (figure * 1_048_576 - bytes) <= 1_048_576,
        1_073_741_824 <= bytes ==> estimate_text(bytes) == "~"@ + (decimal(figure / 10) + "."@
            + decimal(figure % 10)) + " GB"@ && -1_073_741_824 <= 2 * (figure * 1_073_741_824 - 10
            * bytes) <= 1_073_741_824,
{
    assert(nearest(bytes, 1) == bytes);
    assert(bytes / 1 == bytes);
    assert(crate::size::float_step(bytes, 1) == 1);
    assert(crate::size::as_float(bytes) == bytes);
    if bytes >= 1_073_741_824 {
        nearest_is_near(bytes * 10, 1_073_741_824);
        nearest(bytes * 10, 1_073_741_824)
    } else if bytes >= 1_048_576 {
        nearest_is_near(bytes, 1_048_576);
        nearest(bytes, 1_048_576)
    } else {
        nearest_is_near(bytes, 1_024);
        nearest(bytes, 1_024)
    }
}

} // verus!
