//! What a frame's calls do to the buffers of the graphics context.
//!
//! The model follows the two buffer binding points and the data stores of
//! the buffer objects, and nothing else. Over it this module states which
//! data a frame's draw calls read: always the streams of their own batch.

use vstd::prelude::*;
use crate::draw::{DrawBatchView, DrawCommand, DrawDataView};
use crate::gl::{GlCallView, ARRAY_BUFFER, ELEMENT_ARRAY_BUFFER};
use crate::layout::{indices_bytes, vertices_bytes};
use crate::renderer::{
    batch_calls, batches_calls, command_calls, commands_calls, end_calls, frame_calls,
    state_calls, upload_calls, Renderer,
};

verus! {

/// The buffers of a graphics context.
pub struct BufferState {
    /// The buffer bound to the vertex binding point.
    pub array_binding: u32,
    /// The buffer bound to the index binding point.
    pub element_binding: u32,
    /// The data store of each buffer object.
    pub contents: Map<u32, Seq<u8>>,
}

impl BufferState {
    /// The bytes that a draw call reads vertices from.
    pub open spec fn vertex_data(self) -> Seq<u8> {
        self.contents[self.array_binding]
    }

    /// The bytes that a draw call reads indices from.
    pub open spec fn index_data(self) -> Seq<u8> {
        self.contents[self.element_binding]
    }

    /// The buffers after `call`. Binding a buffer changes the binding point;
    /// a data upload replaces the whole data store of the bound buffer; no
    /// other call that a frame issues touches the buffers.
    pub open spec fn after(self, call: GlCallView) -> BufferState {
        match call {
            GlCallView::BindBuffer { target, buffer } => if target == ARRAY_BUFFER {
                BufferState { array_binding: buffer, ..self }
            } else if target == ELEMENT_ARRAY_BUFFER {
                BufferState { element_binding: buffer, ..self }
            } else {
                self
            },
            GlCallView::BufferData { target, data, usage } => if target == ARRAY_BUFFER {
                BufferState { contents: self.contents.insert(self.array_binding, data), ..self }
            } else if target == ELEMENT_ARRAY_BUFFER {
                BufferState { contents: self.contents.insert(self.element_binding, data), ..self }
            } else {
                self
            },
            _ => self,
        }
    }

    /// The buffers after `calls`, issued in order.
    pub open spec fn after_all(self, calls: Seq<GlCallView>) -> BufferState
        decreases calls.len(),
    {
        if calls.len() == 0 {
            self
        } else {
            self.after_all(calls.drop_last()).after(calls.last())
        }
    }
}

/// Whether `call` uploads data to a buffer.
pub open spec fn is_upload(call: GlCallView) -> bool {
    call is BufferData
}

/// Whether `call` draws.
pub open spec fn is_draw(call: GlCallView) -> bool {
    call is DrawElements
}

/// Whether `call` leaves bindings and data stores as they are.
pub open spec fn keeps_buffers(call: GlCallView) -> bool {
    !(call is BindBuffer) && !(call is BufferData)
}

/// Issuing `first` and then `second` is issuing their concatenation.
pub proof fn lemma_after_all_concat(s: BufferState, first: Seq<GlCallView>, second: Seq<GlCallView>)
    ensures
        s.after_all(first + second) == s.after_all(first).after_all(second),
    decreases second.len(),
{
    if second.len() == 0 {
        assert(first + second =~= first);
    } else {
        assert((first + second).drop_last() =~= first + second.drop_last());
        lemma_after_all_concat(s, first, second.drop_last());
    }
}

/// Calls that keep the buffers, however many, keep the buffers.
proof fn lemma_after_all_keeps(s: BufferState, calls: Seq<GlCallView>)
    requires
        forall|i: int| 0 <= i < calls.len() ==> keeps_buffers(#[trigger] calls[i]),
    ensures
        s.after_all(calls) == s,
    decreases calls.len(),
{
    if calls.len() > 0 {
        lemma_after_all_keeps(s, calls.drop_last());
    }
}

/// The calls of draw commands neither bind a buffer nor upload data.
proof fn lemma_commands_keep_buffers(commands: Seq<DrawCommand>)
    ensures
        forall|i: int|
            0 <= i < commands_calls(commands).len() ==> keeps_buffers(
                #[trigger] commands_calls(commands)[i],
            ),
    decreases commands.len(),
{
    if commands.len() > 0 {
        lemma_commands_keep_buffers(commands.drop_last());
        let earlier = commands_calls(commands.drop_last());
        let last = command_calls(commands.last());
        assert forall|i: int| 0 <= i < commands_calls(commands).len() implies keeps_buffers(
            #[trigger] commands_calls(commands)[i],
        ) by {
            if i < earlier.len() {
                assert(commands_calls(commands)[i] == earlier[i]);
            } else {
                assert(commands_calls(commands)[i] == last[i - earlier.len()]);
            }
        }
    }
}

/// After the upload of a batch, the two binding points hold the renderer's
/// buffers and these hold the streams of the batch.
proof fn lemma_upload(r: Renderer, batch: DrawBatchView, s: BufferState)
    requires
        r.vbo != r.ebo,
    ensures
        ({
            let t = s.after_all(upload_calls(r, batch));
            &&& t.array_binding == r.vbo
            &&& t.element_binding == r.ebo
            &&& t.vertex_data() == vertices_bytes(batch.vertices)
            &&& t.index_data() == indices_bytes(batch.indices)
        }),
{
    let calls = upload_calls(r, batch);
    let c3 = calls.drop_last();
    let c2 = c3.drop_last();
    let c1 = c2.drop_last();
    assert(c1.drop_last().len() == 0);
    assert(s.after_all(c1.drop_last()) == s);
    let s1 = s.after_all(c1);
    assert(s1 == s.after(calls[0]));
    let s2 = s.after_all(c2);
    assert(s2 == s1.after(calls[1]));
    let s3 = s.after_all(c3);
    assert(s3 == s2.after(calls[2]));
    assert(s.after_all(calls) == s3.after(calls[3]));
}

/// The calls of the first batches of a frame come first among the calls of
/// all its batches.
proof fn lemma_batches_prefix(r: Renderer, batches: Seq<DrawBatchView>, k: int)
    requires
        0 <= k <= batches.len(),
    ensures
        batches_calls(r, batches.take(k)).len() <= batches_calls(r, batches).len(),
        batches_calls(r, batches).take(batches_calls(r, batches.take(k)).len() as int)
            == batches_calls(r, batches.take(k)),
    decreases batches.len() - k,
{
    if k == batches.len() {
        assert(batches.take(k) =~= batches);
        assert(batches_calls(r, batches).take(batches_calls(r, batches).len() as int)
            =~= batches_calls(r, batches));
    } else {
        lemma_batches_prefix(r, batches, k + 1);
        let longer = batches.take(k + 1);
        assert(longer.drop_last() =~= batches.take(k));
        let short_calls = batches_calls(r, batches.take(k));
        assert(batches_calls(r, longer) == short_calls + batch_calls(r, longer.last()));
        assert(batches_calls(r, batches).take(short_calls.len() as int) =~= short_calls) by {
            let n = batches_calls(r, longer).len() as int;
            assert(batches_calls(r, batches).take(n).take(short_calls.len() as int)
                =~= batches_calls(r, batches).take(short_calls.len() as int));
        }
    }
}

/// The calls of a frame up to some point among the commands of batch `k`:
/// everything before the batch, the upload of the batch, and the calls of
/// its first commands, `done` calls in all.
pub open spec fn calls_into_batch(
    r: Renderer,
    vertex_array: u32,
    data: DrawDataView,
    k: int,
    done: int,
) -> Seq<GlCallView> {
    state_calls(r, vertex_array, data) + batches_calls(r, data.batches.take(k)) + upload_calls(
        r,
        data.batches[k],
    ) + commands_calls(data.batches[k].commands).take(done)
}

/// Every batch is drawn from its own streams, and from nothing else.
///
/// Take a renderer with two distinct buffers, any frame, and any state of
/// the buffers before the frame. Then at every point among the commands of
/// any batch of the frame, the buffer that vertices are read from holds
/// exactly the encoded vertex stream of that batch, and the buffer that
/// indices are read from holds exactly its encoded index stream: an upload
/// replaces whatever an earlier batch or an earlier frame left behind.
pub proof fn lemma_batch_draws_from_own_streams(
    r: Renderer,
    vertex_array: u32,
    data: DrawDataView,
    initial: BufferState,
    k: int,
    done: int,
)
    requires
        r.vbo != r.ebo,
        0 <= k < data.batches.len(),
        0 <= done <= commands_calls(data.batches[k].commands).len(),
    ensures
        ({
            let issued = calls_into_batch(r, vertex_array, data, k, done);
            let frame = frame_calls(r, vertex_array, data);
            let s = initial.after_all(issued);
            &&& issued.len() <= frame.len()
            &&& frame.take(issued.len() as int) == issued
            &&& s.vertex_data() == vertices_bytes(data.batches[k].vertices)
            &&& s.index_data() == indices_bytes(data.batches[k].indices)
        }),
{
    let batch = data.batches[k];
    let opening = state_calls(r, vertex_array, data) + batches_calls(r, data.batches.take(k));
    let upload = upload_calls(r, batch);
    let drawn = commands_calls(batch.commands).take(done);
    let issued = calls_into_batch(r, vertex_array, data, k, done);
    let frame = frame_calls(r, vertex_array, data);

    // The buffers after the issued calls.
    assert(issued == (opening + upload) + drawn);
    lemma_after_all_concat(initial, opening + upload, drawn);
    lemma_after_all_concat(initial, opening, upload);
    lemma_upload(r, batch, initial.after_all(opening));
    lemma_commands_keep_buffers(batch.commands);
    lemma_after_all_keeps(initial.after_all(opening + upload), drawn);

    // The issued calls open the frame.
    let upto = data.batches.take(k + 1);
    assert(upto.drop_last() =~= data.batches.take(k));
    assert(upto.last() == batch);
    lemma_batches_prefix(r, data.batches, k + 1);
    let head = batches_calls(r, upto);
    assert(head == batches_calls(r, data.batches.take(k)) + (upload + commands_calls(
        batch.commands,
    )));
    let all = batches_calls(r, data.batches);
    assert(all.take(head.len() as int) == head);
    assert(frame.take(issued.len() as int) =~= issued) by {
        assert forall|i: int| 0 <= i < issued.len() implies frame[i] == issued[i] by {
            let n = state_calls(r, vertex_array, data).len() as int;
            if i >= n {
                assert(all.take(head.len() as int)[i - n] == all[i - n]);
            }
        }
    }
}

/// A frame without batches uploads nothing, draws nothing and leaves every
/// buffer as it was: its calls are the opening and the closing ones.
pub proof fn lemma_empty_frame(r: Renderer, vertex_array: u32, data: DrawDataView, initial: BufferState)
    requires
        data.batches.len() == 0,
    ensures
        ({
            let frame = frame_calls(r, vertex_array, data);
            &&& frame == state_calls(r, vertex_array, data) + end_calls(vertex_array)
            &&& forall|i: int| 0 <= i < frame.len() ==> !is_upload(#[trigger] frame[i])
            &&& forall|i: int| 0 <= i < frame.len() ==> !is_draw(#[trigger] frame[i])
            &&& initial.after_all(frame).contents == initial.contents
        }),
{
    let opening = state_calls(r, vertex_array, data);
    let frame = frame_calls(r, vertex_array, data);
    assert(frame =~= opening + end_calls(vertex_array));
    lemma_contents_kept(initial, frame);
}

/// The calls of draw commands yield no value.
proof fn lemma_commands_ask_nothing(commands: Seq<DrawCommand>)
    ensures
        forall|i: int|
            0 <= i < commands_calls(commands).len() ==> !(#[trigger] commands_calls(
                commands,
            )[i]).is_query(),
    decreases commands.len(),
{
    if commands.len() > 0 {
        lemma_commands_ask_nothing(commands.drop_last());
        let earlier = commands_calls(commands.drop_last());
        let last = command_calls(commands.last());
        assert forall|i: int| 0 <= i < commands_calls(commands).len() implies !(
        #[trigger] commands_calls(commands)[i]).is_query() by {
            if i < earlier.len() {
                assert(commands_calls(commands)[i] == earlier[i]);
            } else {
                assert(commands_calls(commands)[i] == last[i - earlier.len()]);
            }
        }
    }
}

/// The calls of batches yield no value.
proof fn lemma_batches_ask_nothing(r: Renderer, batches: Seq<DrawBatchView>)
    ensures
        forall|i: int|
            0 <= i < batches_calls(r, batches).len() ==> !(#[trigger] batches_calls(
                r,
                batches,
            )[i]).is_query(),
    decreases batches.len(),
{
    if batches.len() > 0 {
        lemma_batches_ask_nothing(r, batches.drop_last());
        lemma_commands_ask_nothing(batches.last().commands);
        let earlier = batches_calls(r, batches.drop_last());
        let upload = upload_calls(r, batches.last());
        let drawn = commands_calls(batches.last().commands);
        assert forall|i: int| 0 <= i < batches_calls(r, batches).len() implies !(
        #[trigger] batches_calls(r, batches)[i]).is_query() by {
            if i < earlier.len() {
                assert(batches_calls(r, batches)[i] == earlier[i]);
            } else if i < earlier.len() + upload.len() {
                assert(batches_calls(r, batches)[i] == upload[i - earlier.len()]);
            } else {
                assert(batches_calls(r, batches)[i] == drawn[i - earlier.len() - upload.len()]);
            }
        }
    }
}

/// A frame asks the graphics context nothing: none of its calls yields a
/// value, so all of them can be issued without waiting for an answer.
pub proof fn lemma_frame_asks_nothing(r: Renderer, vertex_array: u32, data: DrawDataView)
    ensures
        forall|i: int|
            0 <= i < frame_calls(r, vertex_array, data).len() ==> !(#[trigger] frame_calls(
                r,
                vertex_array,
                data,
            )[i]).is_query(),
{
    lemma_batches_ask_nothing(r, data.batches);
    let opening = state_calls(r, vertex_array, data);
    let drawn = batches_calls(r, data.batches);
    let frame = frame_calls(r, vertex_array, data);
    assert forall|i: int| 0 <= i < frame.len() implies !(#[trigger] frame[i]).is_query() by {
        if i < opening.len() {
            assert(frame[i] == opening[i]);
        } else if i < opening.len() + drawn.len() {
            assert(frame[i] == drawn[i - opening.len()]);
        } else {
            assert(frame[i] == end_calls(vertex_array)[i - opening.len() - drawn.len()]);
        }
    }
}

/// Calls among which there is no upload leave every data store as it was.
pub proof fn lemma_contents_kept(s: BufferState, calls: Seq<GlCallView>)
    requires
        forall|i: int| 0 <= i < calls.len() ==> !is_upload(#[trigger] calls[i]),
    ensures
        s.after_all(calls).contents == s.contents,
    decreases calls.len(),
{
    if calls.len() > 0 {
        lemma_contents_kept(s, calls.drop_last());
    }
}

} // verus!
