//! Translation of a worker-reported error payload into a readable trace.
//!
//! The worker reports stack frames that point into the emitted bundle.  The
//! module context carries the mapping back to original source locations; a
//! frame with no mapping degrades gracefully and is kept raw, so translation
//! as a whole never fails.

use vstd::prelude::*;
use vstd::string::StringExecFns;

use crate::messages::{header_views, ErrorPayload};

verus! {

/// What the bundler knows about the emitted module graph: for each emitted
/// location that may appear in a worker stack frame, the original source
/// location it came from.
#[derive(Debug)]
pub struct ModuleContext {
    pub mappings: Vec<(String, String)>,
}

/// The images of a sequence of frames.
pub open spec fn frame_views(frames: Seq<String>) -> Seq<Seq<char>> {
    frames.map(|i: int, f: String| f@)
}

/// The source location a frame resolves to: the image of the first mapping
/// whose emitted side equals the frame, or the frame itself when none does.
pub open spec fn resolved(frame: Seq<char>, maps: Seq<(Seq<char>, Seq<char>)>) -> Seq<char>
    decreases maps.len(),
{
    if maps.len() == 0 {
        frame
    } else if maps[0].0 == frame {
        maps[0].1
    } else {
        resolved(frame, maps.drop_first())
    }
}

/// The readable trace for a payload: the message, then one line per frame,
/// each resolved against the module context where possible.
pub open spec fn trace_text(
    message: Seq<char>,
    frames: Seq<Seq<char>>,
    maps: Seq<(Seq<char>, Seq<char>)>,
) -> Seq<char>
    decreases frames.len(),
{
    if frames.len() == 0 {
        message
    } else {
        trace_text(message, frames.drop_last(), maps) + seq!['\n'] + resolved(frames.last(), maps)
    }
}

/// The readable trace of a whole payload under a context.
pub open spec fn payload_trace(payload: ErrorPayload, ctx: ModuleContext) -> Seq<char> {
    trace_text(payload.message@, frame_views(payload.frames@), header_views(ctx.mappings@))
}

proof fn lemma_resolved_skip(frame: Seq<char>, maps: Seq<(Seq<char>, Seq<char>)>, i: int)
    requires
        0 <= i <= maps.len(),
        forall|j: int| 0 <= j < i ==> #[trigger] maps[j].0 != frame,
    ensures
        resolved(frame, maps) == resolved(frame, maps.skip(i)),
    decreases i,
{
    if i > 0 {
        lemma_resolved_skip(frame, maps, i - 1);
        assert(maps.skip(i - 1).len() > 0);
        assert(maps.skip(i - 1)[0] == maps[i - 1]);
        assert(maps.skip(i - 1).drop_first() =~= maps.skip(i));
    } else {
        assert(maps.skip(0) =~= maps);
    }
}

/// Resolves one frame against the context: the original location of the
/// first mapping that matches it, or the frame itself.
fn resolve_frame<'a>(frame: &'a String, ctx: &'a ModuleContext) -> (r: &'a String)
    ensures
        r@ == resolved(frame@, header_views(ctx.mappings@)),
{
    let ghost maps = header_views(ctx.mappings@);
    let n = ctx.mappings.len();
    let mut i: usize = 0;
    while i < n
        invariant
            n == ctx.mappings.len(),
            0 <= i <= n,
            maps == header_views(ctx.mappings@),
            forall|j: int| 0 <= j < i ==> #[trigger] maps[j].0 != frame@,
        decreases n - i,
    {
        if ctx.mappings[i].0 == *frame {
            proof {
                lemma_resolved_skip(frame@, maps, i as int);
                assert(maps.skip(i as int)[0] == maps[i as int]);
            }
            return &ctx.mappings[i].1;
        }
        i += 1;
    }
    proof {
        lemma_resolved_skip(frame@, maps, n as int);
        assert(maps.skip(n as int) =~= Seq::<(Seq<char>, Seq<char>)>::empty());
    }
    frame
}

/// Translates a worker error payload into the readable trace that becomes
/// the user-visible error text.
pub fn trace_stack(payload: ErrorPayload, ctx: &ModuleContext) -> (r: String)
    ensures
        r@ == payload_trace(payload, *ctx),
{
    let ghost frames = frame_views(payload.frames@);
    let ghost maps = header_views(ctx.mappings@);
    let mut out = payload.message;
    let n = payload.frames.len();
    let mut i: usize = 0;
    while i < n
        invariant
            n == payload.frames.len(),
            0 <= i <= n,
            frames == frame_views(payload.frames@),
            maps == header_views(ctx.mappings@),
            out@ == trace_text(payload.message@, frames.take(i as int), maps),
    decreases n - i,
    {
        out.append("\n");
        let line = resolve_frame(&payload.frames[i], ctx);
        out.append(line.as_str());
        proof {
            reveal_strlit("\n");
            assert(frames.take(i + 1).drop_last() =~= frames.take(i as int));
            assert(frames.take(i + 1).last() == frames[i as int]);
            assert("\n"@ =~= seq!['\n']);
        }
        i += 1;
    }
    proof {
        assert(frames.take(n as int) =~= frames);
    }
    out
}

} // verus!
