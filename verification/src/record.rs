//! Command recording: what one frame's command buffer holds.
//!
//! A recorded command buffer is modeled as the list of draw calls it
//! ends with (clear, viewport and scissor state being fixed by the
//! pass); `recorded_for` says exactly which draws a list of objects
//! induces, in draw order.

use vstd::prelude::*;

use crate::object::Object;

verus! {

/// One recorded draw call.
#[derive(Clone, Copy, Debug, PartialEq, Eq, Structural)]
pub enum DrawCmd {
    /// A non-indexed draw of `vertex_count` vertices.
    Draw { vertex_count: usize },
    /// An indexed draw of `index_count` indices.
    DrawIndexed { index_count: usize },
}

/// The draws recorded for one object: one per vertex buffer, indexed
/// when the object has an index buffer.
pub open spec fn draw_cmds_for(o: Object) -> Seq<DrawCmd> {
    match o.index_buffer {
        Some(ib) => Seq::new(
            o.vertex_buffers@.len(),
            |i: int| DrawCmd::DrawIndexed { index_count: ib.index_count },
        ),
        None => Seq::new(
            o.vertex_buffers@.len(),
            |i: int| DrawCmd::Draw { vertex_count: o.vertex_buffers@[i].vertex_count },
        ),
    }
}

/// The draws recorded for a whole object list, in list order.
pub open spec fn recorded_for(objs: Seq<Object>) -> Seq<DrawCmd>
    decreases objs.len(),
{
    if objs.len() == 0 {
        Seq::empty()
    } else {
        recorded_for(objs.drop_last()) + draw_cmds_for(objs.last())
    }
}

/// Records the draw calls for `objs`: for each object in order, bind
/// the pipeline and, per vertex buffer, push its constants and issue
/// the draw — indexed when the object has an index buffer.
pub fn record_object_commands(objs: &Vec<Object>) -> (r: Vec<DrawCmd>)
    ensures
        r@ == recorded_for(objs@),
{
    let mut r: Vec<DrawCmd> = Vec::new();
    let mut i: usize = 0;
    while i < objs.len()
        invariant
            i <= objs@.len(),
            r@ == recorded_for(objs@.take(i as int)),
        decreases objs@.len() - i,
    {
        let o = &objs[i];
        match &o.index_buffer {
            Some(index_buffer) => {
                let n = index_buffer.get_index_count();
                let mut k: usize = 0;
                while k < o.vertex_buffers.len()
                    invariant
                        k <= o.vertex_buffers@.len(),
                        n == index_buffer.index_count,
                        o.index_buffer matches Some(b) && b == *index_buffer,
                        o == &objs@[i as int],
                        i < objs@.len(),
                        r@ == recorded_for(objs@.take(i as int)) + Seq::new(
                            k as nat,
                            |j: int| DrawCmd::DrawIndexed { index_count: n },
                        ),
                    decreases o.vertex_buffers@.len() - k,
                {
                    r.push(DrawCmd::DrawIndexed { index_count: n });
                    proof {
                        assert(r@ =~= recorded_for(objs@.take(i as int)) + Seq::new(
                            (k + 1) as nat,
                            |j: int| DrawCmd::DrawIndexed { index_count: n },
                        ));
                    }
                    k = k + 1;
                }
                proof {
                    assert(draw_cmds_for(objs@[i as int]) =~= Seq::new(
                        o.vertex_buffers@.len(),
                        |j: int| DrawCmd::DrawIndexed { index_count: n },
                    ));
                }
            },
            None => {
                let mut k: usize = 0;
                while k < o.vertex_buffers.len()
                    invariant
                        k <= o.vertex_buffers@.len(),
                        o.index_buffer is None,
                        o == &objs@[i as int],
                        i < objs@.len(),
                        r@ == recorded_for(objs@.take(i as int)) + Seq::new(
                            k as nat,
                            |j: int| DrawCmd::Draw {
                                vertex_count: o.vertex_buffers@[j].vertex_count,
                            },
                        ),
                    decreases o.vertex_buffers@.len() - k,
                {
                    let vertex_buffer = &o.vertex_buffers[k];
                    r.push(DrawCmd::Draw { vertex_count: vertex_buffer.get_vertex_count() });
                    proof {
                        assert(r@ =~= recorded_for(objs@.take(i as int)) + Seq::new(
                            (k + 1) as nat,
                            |j: int| DrawCmd::Draw {
                                vertex_count: o.vertex_buffers@[j].vertex_count,
                            },
                        ));
                    }
                    k = k + 1;
                }
                proof {
                    assert(draw_cmds_for(objs@[i as int]) =~= Seq::new(
                        o.vertex_buffers@.len(),
                        |j: int| DrawCmd::Draw { vertex_count: o.vertex_buffers@[j].vertex_count },
                    ));
                }
            },
        }
        proof {
            let t = objs@.take(i + 1);
            assert(t.drop_last() =~= objs@.take(i as int));
            assert(t.last() == objs@[i as int]);
            assert(recorded_for(objs@.take(i + 1)) == recorded_for(objs@.take(i as int))
                + draw_cmds_for(objs@[i as int]));
        }
        i = i + 1;
    }
    proof {
        assert(objs@.take(objs@.len() as int) =~= objs@);
    }
    r
}

} // verus!
