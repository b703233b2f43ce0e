use vstd::prelude::*;

verus! {

/// Where a transcript is delivered.
#[derive(Debug, Clone, Copy, PartialEq, Eq, Structural, Default)]
pub enum OutputTarget {
    #[default]
    Stdout,
    Clipboard,
    Both,
}

/// One destination of a transcript.
#[derive(Debug, Clone, Copy, PartialEq, Eq, Structural)]
pub enum SinkKind {
    Stdout,
    Clipboard,
}

/// Writes a transcript to standard output.
#[derive(Debug, Clone, Copy)]
pub struct StdoutSink;

/// Copies a transcript to the system clipboard.
#[derive(Debug, Clone, Copy)]
pub struct ClipboardSink;

/// The destinations of a target, in the order they are written to.
pub open spec fn sinks_of(target: OutputTarget) -> Seq<SinkKind> {
    match target {
        OutputTarget::Stdout => seq![SinkKind::Stdout],
        OutputTarget::Clipboard => seq![SinkKind::Clipboard],
        OutputTarget::Both => seq![SinkKind::Stdout, SinkKind::Clipboard],
    }
}

/// The sinks that a target writes to, in order; writing stops at the first
/// sink that fails.
pub fn create_sink(target: OutputTarget) -> (r: Vec<SinkKind>)
    ensures
        r@ == sinks_of(target),
{
    let mut sinks: Vec<SinkKind> = Vec::new();
    match target {
        OutputTarget::Stdout => sinks.push(SinkKind::Stdout),
        OutputTarget::Clipboard => sinks.push(SinkKind::Clipboard),
        OutputTarget::Both => {
            sinks.push(SinkKind::Stdout);
            sinks.push(SinkKind::Clipboard);
        },
    }
    assert(sinks@ =~= sinks_of(target));
    sinks
}

} // verus!
