//! Vertex arrays, vertex and element buffers, and interleaved vertex layouts.

use vstd::prelude::*;
use std::collections::BTreeMap;
use crate::driver::{BindTarget, DriverCall, ScalarType};
use crate::handle::{
    bind_calls, bound, fresh, release_calls, unbind_calls, unbound, GpuObject,
};

verus! {

/// A vertex array object: records how attribute slots read vertex buffers.
pub struct VertexArray {
    obj: GpuObject,
}

/// A buffer of vertex data, bound at the array-buffer point.
pub struct VertexBuffer {
    obj: GpuObject,
}

/// A buffer of triangle indices, bound at the element-buffer point, whose
/// binding lives inside the owning vertex array's state.
pub struct ElementBuffer {
    obj: GpuObject,
}

impl View for VertexArray {
    type V = GpuObject;

    closed spec fn view(&self) -> GpuObject {
        self.obj
    }
}

impl View for VertexBuffer {
    type V = GpuObject;

    closed spec fn view(&self) -> GpuObject {
        self.obj
    }
}

impl View for ElementBuffer {
    type V = GpuObject;

    closed spec fn view(&self) -> GpuObject {
        self.obj
    }
}

/// Size in bytes of one buffer element.
pub open spec fn upload_bytes(len: nat) -> nat {
    4 * len
}

impl VertexArray {
    /// Wraps the vertex array name `id` that the driver has just generated.
    pub fn new(id: u32) -> (r: VertexArray)
        ensures
            r@ == fresh(id),
    {
        VertexArray { obj: GpuObject::new(id) }
    }

    /// The driver's name of this vertex array.
    pub fn id(&self) -> (r: u32)
        ensures
            r == self@.id,
    {
        self.obj.id
    }

    /// Binds this array and `vbo`, then sets how slot `layout` reads `vbo`
    /// and enables the slot.
    pub fn link_attribute(
        &mut self,
        vbo: &mut VertexBuffer,
        layout: u32,
        items: i32,
        ty: ScalarType,
        stride_bytes: i32,
        offset: usize,
        calls: &mut Vec<DriverCall>,
    )
        ensures
            final(self)@ == bound(old(self)@),
            final(vbo)@ == bound(old(vbo)@),
            final(calls)@ == old(calls)@ + bind_calls(old(self)@, BindTarget::VertexArray)
                + bind_calls(old(vbo)@, BindTarget::ArrayBuffer) + seq![
                DriverCall::AttribPointer {
                    index: layout,
                    components: items,
                    ty,
                    stride: stride_bytes,
                    offset,
                },
                DriverCall::EnableAttrib { index: layout },
            ],
    {
        self.bind(calls);
        vbo.bind(calls);
        calls.push(
            DriverCall::AttribPointer {
                index: layout,
                components: items,
                ty,
                stride: stride_bytes,
                offset,
            },
        );
        calls.push(DriverCall::EnableAttrib { index: layout });
    }

    /// Binds this array unless it is bound already.
    pub fn bind(&mut self, calls: &mut Vec<DriverCall>)
        ensures
            final(self)@ == bound(old(self)@),
            final(calls)@ == old(calls)@ + bind_calls(old(self)@, BindTarget::VertexArray),
    {
        self.obj.bind(BindTarget::VertexArray, calls);
    }

    /// Unbinds this array if it is bound.
    pub fn unbind(&mut self, calls: &mut Vec<DriverCall>)
        ensures
            final(self)@ == unbound(old(self)@),
            final(calls)@ == old(calls)@ + unbind_calls(old(self)@, BindTarget::VertexArray),
    {
        self.obj.unbind(BindTarget::VertexArray, calls);
    }

    /// Unbinds this array if it is bound, then deletes it.
    pub fn release(self, calls: &mut Vec<DriverCall>)
        ensures
            final(calls)@ == old(calls)@ + release_calls(self@, BindTarget::VertexArray),
    {
        self.obj.release(BindTarget::VertexArray, calls);
    }
}

impl VertexBuffer {
    /// Binds `vao`, whose state the new buffer joins, then asks the driver
    /// for a buffer name; the answer goes to [`VertexBuffer::new`].
    pub fn allocate(vao: &mut VertexArray, calls: &mut Vec<DriverCall>)
        ensures
            final(vao)@ == bound(old(vao)@),
            final(calls)@ == old(calls)@ + bind_calls(old(vao)@, BindTarget::VertexArray) + seq![
                DriverCall::Generate { target: BindTarget::ArrayBuffer },
            ],
    {
        vao.bind(calls);
        calls.push(DriverCall::Generate { target: BindTarget::ArrayBuffer });
    }

    /// Wraps the buffer name `id` that the driver handed out for [`VertexBuffer::allocate`].
    pub fn new(id: u32) -> (r: VertexBuffer)
        ensures
            r@ == fresh(id),
    {
        VertexBuffer { obj: GpuObject::new(id) }
    }

    /// Binds this buffer and replaces its whole store with `data`.
    pub fn set_data(&mut self, data: Vec<u32>, calls: &mut Vec<DriverCall>)
        requires
            upload_bytes(data@.len()) <= usize::MAX,
        ensures
            final(self)@ == bound(old(self)@),
            final(calls)@ == old(calls)@ + bind_calls(old(self)@, BindTarget::ArrayBuffer) + seq![
                DriverCall::BufferData {
                    target: BindTarget::ArrayBuffer,
                    bytes: upload_bytes(data@.len()) as usize,
                    data,
                },
            ],
    {
        self.bind(calls);
        let bytes = data.len() * 4;
        calls.push(DriverCall::BufferData { target: BindTarget::ArrayBuffer, bytes, data });
    }

    /// Binds this buffer unless it is bound already.
    pub fn bind(&mut self, calls: &mut Vec<DriverCall>)
        ensures
            final(self)@ == bound(old(self)@),
            final(calls)@ == old(calls)@ + bind_calls(old(self)@, BindTarget::ArrayBuffer),
    {
        self.obj.bind(BindTarget::ArrayBuffer, calls);
    }

    /// Unbinds this buffer if it is bound.
    pub fn unbind(&mut self, calls: &mut Vec<DriverCall>)
        ensures
            final(self)@ == unbound(old(self)@),
            final(calls)@ == old(calls)@ + unbind_calls(old(self)@, BindTarget::ArrayBuffer),
    {
        self.obj.unbind(BindTarget::ArrayBuffer, calls);
    }

    /// Unbinds this buffer if it is bound, then deletes it.
    pub fn release(self, calls: &mut Vec<DriverCall>)
        ensures
            final(calls)@ == old(calls)@ + release_calls(self@, BindTarget::ArrayBuffer),
    {
        self.obj.release(BindTarget::ArrayBuffer, calls);
    }
}

/// What binding an element buffer issues: its array first, then the buffer itself.
pub open spec fn element_bind_calls(ebo: GpuObject, vao: GpuObject) -> Seq<DriverCall> {
    bind_calls(vao, BindTarget::VertexArray) + bind_calls(ebo, BindTarget::ElementArrayBuffer)
}

/// What unbinding an element buffer issues: its array first, then the buffer itself.
pub open spec fn element_unbind_calls(ebo: GpuObject, vao: GpuObject) -> Seq<DriverCall> {
    unbind_calls(vao, BindTarget::VertexArray) + unbind_calls(
        ebo,
        BindTarget::ElementArrayBuffer,
    )
}

impl ElementBuffer {
    /// Binds `vao`, whose state the new buffer joins, then asks the driver
    /// for a buffer name; the answer goes to [`ElementBuffer::new`].
    pub fn allocate(vao: &mut VertexArray, calls: &mut Vec<DriverCall>)
        ensures
            final(vao)@ == bound(old(vao)@),
            final(calls)@ == old(calls)@ + bind_calls(old(vao)@, BindTarget::VertexArray) + seq![
                DriverCall::Generate { target: BindTarget::ElementArrayBuffer },
            ],
    {
        vao.bind(calls);
        calls.push(DriverCall::Generate { target: BindTarget::ElementArrayBuffer });
    }

    /// Wraps the buffer name `id` that the driver handed out for
    /// [`ElementBuffer::allocate`] and binds it, together with its owning `vao`.
    pub fn new(id: u32, vao: &mut VertexArray, calls: &mut Vec<DriverCall>) -> (r: ElementBuffer)
        ensures
            r@ == bound(fresh(id)),
            final(vao)@ == bound(old(vao)@),
            final(calls)@ == old(calls)@ + element_bind_calls(fresh(id), old(vao)@),
    {
        let mut instance = ElementBuffer { obj: GpuObject::new(id) };
        instance.bind(vao, calls);
        instance
    }

    /// Binds this buffer and its array, and replaces the buffer's whole
    /// store with `data`.
    pub fn set_data(&mut self, data: Vec<u32>, vao: &mut VertexArray, calls: &mut Vec<DriverCall>)
        requires
            upload_bytes(data@.len()) <= usize::MAX,
        ensures
            final(self)@ == bound(old(self)@),
            final(vao)@ == bound(old(vao)@),
            final(calls)@ == old(calls)@ + element_bind_calls(old(self)@, old(vao)@) + seq![
                DriverCall::BufferData {
                    target: BindTarget::ElementArrayBuffer,
                    bytes: upload_bytes(data@.len()) as usize,
                    data,
                },
            ],
    {
        self.bind(vao, calls);
        let bytes = data.len() * 4;
        calls.push(
            DriverCall::BufferData { target: BindTarget::ElementArrayBuffer, bytes, data },
        );
    }

    /// Binds `vao`, then this buffer unless it is bound already.
    pub fn bind(&mut self, vao: &mut VertexArray, calls: &mut Vec<DriverCall>)
        ensures
            final(self)@ == bound(old(self)@),
            final(vao)@ == bound(old(vao)@),
            final(calls)@ == old(calls)@ + element_bind_calls(old(self)@, old(vao)@),
    {
        vao.bind(calls);
        self.obj.bind(BindTarget::ElementArrayBuffer, calls);
    }

    /// Unbinds `vao`, then this buffer if it is bound.
    pub fn unbind(&mut self, vao: &mut VertexArray, calls: &mut Vec<DriverCall>)
        ensures
            final(self)@ == unbound(old(self)@),
            final(vao)@ == unbound(old(vao)@),
            final(calls)@ == old(calls)@ + element_unbind_calls(old(self)@, old(vao)@),
    {
        vao.unbind(calls);
        self.obj.unbind(BindTarget::ElementArrayBuffer, calls);
    }

    /// Unbinds this buffer if it is bound, then deletes it.
    pub fn release(self, calls: &mut Vec<DriverCall>)
        ensures
            final(calls)@ == old(calls)@ + release_calls(self@, BindTarget::ElementArrayBuffer),
    {
        self.obj.release(BindTarget::ElementArrayBuffer, calls);
    }
}

/// Binding an element buffer twice in a row issues its calls once: the
/// second bind finds both the buffer and its array bound.
pub proof fn element_bind_twice_binds_once(ebo: GpuObject, vao: GpuObject)
    ensures
        element_bind_calls(ebo, vao) + element_bind_calls(bound(ebo), bound(vao))
            == element_bind_calls(ebo, vao),
        element_bind_calls(bound(ebo), bound(vao)) == Seq::<DriverCall>::empty(),
{
    assert(element_bind_calls(bound(ebo), bound(vao)) =~= Seq::<DriverCall>::empty());
    assert(element_bind_calls(ebo, vao) + element_bind_calls(bound(ebo), bound(vao))
        =~= element_bind_calls(ebo, vao));
}

/// One attribute of an interleaved vertex record: its scalar type and how
/// many components it has.
#[derive(Clone, Copy, Debug, PartialEq, Eq, Structural)]
pub enum LayoutItem {
    Integer(u8),
    Float(u8),
}

/// Bytes that one attribute takes in a vertex record (all scalars are four bytes).
pub open spec fn item_bytes(item: LayoutItem) -> nat {
    match item {
        LayoutItem::Integer(count) => (4 * count) as nat,
        LayoutItem::Float(count) => (4 * count) as nat,
    }
}

/// Scalar type of an attribute.
pub open spec fn item_type(item: LayoutItem) -> ScalarType {
    match item {
        LayoutItem::Integer(_) => ScalarType::Int,
        LayoutItem::Float(_) => ScalarType::Float,
    }
}

/// Component count of an attribute.
pub open spec fn item_count(item: LayoutItem) -> u8 {
    match item {
        LayoutItem::Integer(count) => count,
        LayoutItem::Float(count) => count,
    }
}

/// The attributes of `m` whose slot is below `k`, in ascending slot order.
pub open spec fn entries_below(m: Map<u8, LayoutItem>, k: nat) -> Seq<(u8, LayoutItem)>
    decreases k,
{
    if k == 0 {
        seq![]
    } else {
        let rest = entries_below(m, (k - 1) as nat);
        let slot = (k - 1) as u8;
        if m.contains_key(slot) {
            rest.push((slot, m[slot]))
        } else {
            rest
        }
    }
}

/// All attributes of `m`, in ascending slot order.
pub open spec fn entries(m: Map<u8, LayoutItem>) -> Seq<(u8, LayoutItem)> {
    entries_below(m, 256)
}

/// Total bytes of a sequence of attributes.
pub open spec fn bytes_of(s: Seq<(u8, LayoutItem)>) -> nat
    decreases s.len(),
{
    if s.len() == 0 {
        0
    } else {
        bytes_of(s.drop_last()) + item_bytes(s.last().1)
    }
}

/// The calls that configure the attributes `s`, each placed right after
/// the ones before it in a record of `stride` bytes.
pub open spec fn attrib_calls(s: Seq<(u8, LayoutItem)>, stride: i32) -> Seq<DriverCall>
    decreases s.len(),
{
    if s.len() == 0 {
        seq![]
    } else {
        let (slot, item) = s.last();
        attrib_calls(s.drop_last(), stride) + seq![
            DriverCall::AttribPointer {
                index: slot as u32,
                components: item_count(item) as i32,
                ty: item_type(item),
                stride,
                offset: bytes_of(s.drop_last()) as usize,
            },
            DriverCall::EnableAttrib { index: slot as u32 },
        ]
    }
}

/// The calls that linking the attributes `s` issues: the array and the
/// buffer are bound by the first attribute, if there is one.
pub open spec fn link_calls(
    vao: GpuObject,
    vbo: GpuObject,
    s: Seq<(u8, LayoutItem)>,
    stride: i32,
) -> Seq<DriverCall> {
    if s.len() == 0 {
        seq![]
    } else {
        bind_calls(vao, BindTarget::VertexArray) + bind_calls(vbo, BindTarget::ArrayBuffer)
            + attrib_calls(s, stride)
    }
}

/// The interleaved layout of a vertex record: an attribute for each slot,
/// laid out in ascending slot order.
pub struct VertexAttribDescriptor {
    items: BTreeMap<u8, LayoutItem>,
}

impl View for VertexAttribDescriptor {
    type V = Map<u8, LayoutItem>;

    closed spec fn view(&self) -> Map<u8, LayoutItem> {
        self.items@
    }
}

proof fn lemma_bytes_bound(m: Map<u8, LayoutItem>, k: nat)
    requires
        k <= 256,
    ensures
        bytes_of(entries_below(m, k)) <= 1020 * k,
    decreases k,
{
    if k > 0 {
        lemma_bytes_bound(m, (k - 1) as nat);
        let rest = entries_below(m, (k - 1) as nat);
        let slot = (k - 1) as u8;
        if m.contains_key(slot) {
            assert(rest.push((slot, m[slot])).drop_last() =~= rest);
        }
    }
}

impl VertexAttribDescriptor {
    /// A layout with no attributes.
    pub fn new() -> (r: VertexAttribDescriptor)
        ensures
            r@ == Map::<u8, LayoutItem>::empty(),
    {
        VertexAttribDescriptor { items: BTreeMap::new() }
    }

    /// Sets the attribute of slot `id`, replacing any earlier one.
    pub fn layout(&mut self, id: u8, item: LayoutItem) -> (r: &mut Self)
        ensures
            (*r)@ == old(self)@.insert(id, item),
            *final(self) == *final(r),
    {
        self.items.insert(id, item);
        self
    }

    /// Bytes of one vertex record: the sum of all attributes' sizes.
    pub fn stride(&self) -> (r: usize)
        ensures
            r == bytes_of(entries(self@)),
    {
        let mut acc: usize = 0;
        let mut k: usize = 0;
        while k < 256
            invariant
                k <= 256,
                acc == bytes_of(entries_below(self@, k as nat)),
            decreases 256 - k,
        {
            proof {
                lemma_bytes_bound(self@, k as nat);
                lemma_bytes_bound(self@, (k + 1) as nat);
            }
            let slot = k as u8;
            let ghost rest = entries_below(self@, k as nat);
            match self.items.get(&slot) {
                Some(item) => {
                    assert(rest.push((slot, self@[slot])).drop_last() =~= rest);
                    acc = acc + Self::size_of(*item);
                },
                None => {},
            }
            k = k + 1;
        }
        acc
    }

    fn size_of(item: LayoutItem) -> (r: usize)
        ensures
            r == item_bytes(item),
    {
        match item {
            LayoutItem::Integer(count) => count as usize * 4,
            LayoutItem::Float(count) => count as usize * 4,
        }
    }

    /// Configures `vao` to read `vbo` as records of this layout: each
    /// attribute, in ascending slot order, sits right after the previous one.
    pub fn link(&self, vao: &mut VertexArray, vbo: &mut VertexBuffer, calls: &mut Vec<DriverCall>)
        ensures
            final(calls)@ == old(calls)@ + link_calls(
                old(vao)@,
                old(vbo)@,
                entries(self@),
                bytes_of(entries(self@)) as i32,
            ),
            entries(self@).len() > 0 ==> final(vao)@ == bound(old(vao)@) && final(vbo)@ == bound(
                old(vbo)@,
            ),
            entries(self@).len() == 0 ==> final(vao)@ == old(vao)@ && final(vbo)@ == old(vbo)@,
    {
        let stride = self.stride();
        proof {
            lemma_bytes_bound(self@, 256);
        }
        let stride = stride as i32;
        let ghost m = self@;
        let ghost calls0 = calls@;
        let ghost vao0 = vao@;
        let ghost vbo0 = vbo@;
        let mut offset: usize = 0;
        let mut k: usize = 0;
        while k < 256
            invariant
                k <= 256,
                m == self@,
                stride as int == bytes_of(entries(m)),
                offset == bytes_of(entries_below(m, k as nat)),
                calls@ == calls0 + link_calls(vao0, vbo0, entries_below(m, k as nat), stride),
                entries_below(m, k as nat).len() > 0 ==> vao@ == bound(vao0) && vbo@ == bound(
                    vbo0,
                ),
                entries_below(m, k as nat).len() == 0 ==> vao@ == vao0 && vbo@ == vbo0,
            decreases 256 - k,
        {
            proof {
                lemma_bytes_bound(m, k as nat);
                lemma_bytes_bound(m, (k + 1) as nat);
            }
            let slot = k as u8;
            let ghost rest = entries_below(m, k as nat);
            match self.items.get(&slot) {
                Some(item) => {
                    let item = *item;
                    let ghost next = rest.push((slot, item));
                    assert(next.drop_last() =~= rest);
                    assert(next.last() == (slot, item));
                    let ty = match item {
                        LayoutItem::Integer(_) => ScalarType::Int,
                        LayoutItem::Float(_) => ScalarType::Float,
                    };
                    let count = match item {
                        LayoutItem::Integer(c) => c,
                        LayoutItem::Float(c) => c,
                    };
                    vao.link_attribute(vbo, slot as u32, count as i32, ty, stride, offset, calls);
                    offset = offset + Self::size_of(item);
                    proof {
                        if rest.len() == 0 {
                            assert(attrib_calls(rest, stride) =~= Seq::<DriverCall>::empty());
                        }
                        assert(calls@ =~= calls0 + link_calls(vao0, vbo0, next, stride));
                    }
                },
                None => {},
            }
            k = k + 1;
        }
        proof {
            assert(entries_below(m, 256) == entries(m));
        }
    }
}

proof fn lemma_attrib_calls_at(s: Seq<(u8, LayoutItem)>, stride: i32, i: int)
    requires
        0 <= i < s.len(),
    ensures
        attrib_calls(s, stride).len() == 2 * s.len(),
        attrib_calls(s, stride)[2 * i] == (DriverCall::AttribPointer {
            index: s[i].0 as u32,
            components: item_count(s[i].1) as i32,
            ty: item_type(s[i].1),
            stride,
            offset: bytes_of(s.take(i)) as usize,
        }),
        attrib_calls(s, stride)[2 * i + 1] == (DriverCall::EnableAttrib { index: s[i].0 as u32 }),
    decreases s.len(),
{
    let n = s.len() - 1;
    let prev = attrib_calls(s.drop_last(), stride);
    if n > 0 {
        lemma_attrib_calls_at(s.drop_last(), stride, 0);
    } else {
        assert(prev == Seq::<DriverCall>::empty());
    }
    assert(prev.len() == 2 * n);
    let (slot, item) = s.last();
    let tail = seq![
        DriverCall::AttribPointer {
            index: slot as u32,
            components: item_count(item) as i32,
            ty: item_type(item),
            stride,
            offset: bytes_of(s.drop_last()) as usize,
        },
        DriverCall::EnableAttrib { index: slot as u32 },
    ];
    assert(attrib_calls(s, stride) == prev + tail);
    if i < n {
        lemma_attrib_calls_at(s.drop_last(), stride, i);
        assert(s.drop_last().take(i) =~= s.take(i));
        assert(s.drop_last()[i] == s[i]);
    } else {
        assert(s.drop_last() =~= s.take(i));
    }
}

/// Linking a layout configures each attribute, in ascending slot order,
/// with the record's stride, the sum of all attributes' sizes, and with the
/// offset that is the sum of the sizes of the attributes before it.
pub proof fn link_places_each_attribute(d: VertexAttribDescriptor, i: int)
    requires
        0 <= i < entries(d@).len(),
    ensures
        bytes_of(entries(d@)) <= 261120,
        ({
            let s = entries(d@);
            let stride = bytes_of(s) as i32;
            &&& stride as int == bytes_of(s)
            &&& attrib_calls(s, stride).len() == 2 * s.len()
            &&& attrib_calls(s, stride)[2 * i] == (DriverCall::AttribPointer {
                index: s[i].0 as u32,
                components: item_count(s[i].1) as i32,
                ty: item_type(s[i].1),
                stride,
                offset: bytes_of(s.take(i)) as usize,
            })
            &&& attrib_calls(s, stride)[2 * i + 1] == (DriverCall::EnableAttrib {
                index: s[i].0 as u32,
            })
        }),
{
    lemma_bytes_bound(d@, 256);
    lemma_attrib_calls_at(entries(d@), bytes_of(entries(d@)) as i32, i);
}

proof fn lemma_entries_below_sorted(m: Map<u8, LayoutItem>, k: nat)
    requires
        k <= 256,
    ensures
        forall|i: int, j: int|
            0 <= i < j < entries_below(m, k).len() ==> entries_below(m, k)[i].0
                < entries_below(m, k)[j].0,
        forall|i: int|
            0 <= i < entries_below(m, k).len() ==> entries_below(m, k)[i].0 < k && m.contains_key(
                entries_below(m, k)[i].0,
            ) && m[entries_below(m, k)[i].0] == entries_below(m, k)[i].1,
        forall|slot: u8| slot < k && m.contains_key(slot) ==> exists|i: int|
            0 <= i < entries_below(m, k).len() && entries_below(m, k)[i].0 == slot,
    decreases k,
{
    if k > 0 {
        lemma_entries_below_sorted(m, (k - 1) as nat);
        let rest = entries_below(m, (k - 1) as nat);
        let slot = (k - 1) as u8;
        if m.contains_key(slot) {
            let next = rest.push((slot, m[slot]));
            assert(entries_below(m, k) == next);
            assert forall|s: u8| s < k && m.contains_key(s) implies exists|i: int|
                0 <= i < next.len() && next[i].0 == s by {
                if s == slot {
                    assert(next[rest.len() as int].0 == s);
                } else {
                    let i = choose|i: int| 0 <= i < rest.len() && rest[i].0 == s;
                    assert(next[i].0 == s);
                }
            }
        } else {
            assert(entries_below(m, k) == rest);
            assert forall|s: u8| s < k && m.contains_key(s) implies exists|i: int|
                0 <= i < rest.len() && rest[i].0 == s by {
                assert(s < k - 1);
            }
        }
    }
}

/// The attributes of a layout come out in strictly ascending slot order,
/// each exactly as it was set, and every slot that was set is among them.
pub proof fn entries_are_ascending(d: VertexAttribDescriptor)
    ensures
        forall|i: int, j: int|
            0 <= i < j < entries(d@).len() ==> entries(d@)[i].0 < entries(d@)[j].0,
        forall|i: int|
            0 <= i < entries(d@).len() ==> d@.contains_key(entries(d@)[i].0)
                && d@[entries(d@)[i].0] == entries(d@)[i].1,
        forall|slot: u8| d@.contains_key(slot) ==> exists|i: int|
            0 <= i < entries(d@).len() && entries(d@)[i].0 == slot,
        entries(d@).len() == d@.len(),
{
    lemma_entries_below_sorted(d@, 256);
    assert(entries(d@) == entries_below(d@, 256));
    assert forall|slot: u8| d@.contains_key(slot) implies exists|i: int|
        0 <= i < entries(d@).len() && entries(d@)[i].0 == slot by {
        assert(slot < 256 && d@.contains_key(slot));
        let i = choose|i: int|
            0 <= i < entries_below(d@, 256).len() && entries_below(d@, 256)[i].0 == slot;
        assert(entries(d@)[i].0 == slot);
    }
    let s = entries(d@);
    let keys = s.map_values(|e: (u8, LayoutItem)| e.0);
    assert(keys.no_duplicates()) by {
        assert forall|i: int, j: int| 0 <= i < keys.len() && 0 <= j < keys.len() && i != j
            implies keys[i] != keys[j] by {
            if i < j {
                assert(s[i].0 < s[j].0);
            } else {
                assert(s[j].0 < s[i].0);
            }
        }
    }
    assert(keys.to_set() =~= d@.dom()) by {
        assert forall|x: u8| keys.to_set().contains(x) implies d@.dom().contains(x) by {
            let i = choose|i: int| 0 <= i < keys.len() && keys[i] == x;
            assert(s[i].0 == x);
        }
        assert forall|x: u8| d@.dom().contains(x) implies keys.to_set().contains(x) by {
            let i = choose|i: int| 0 <= i < s.len() && s[i].0 == x;
            assert(keys[i] == x);
        }
    }
    keys.unique_seq_to_set();
}

} // verus!
