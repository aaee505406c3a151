//! Per-entity instance snapshots and the instance buffers built from them.
use vstd::prelude::*;
use vstd::layout::size_of;

verus! {

/// A fixed-layout, plain-old-data record that is handed to the GPU as one
/// instance of a draw.
pub trait InstanceData: Copy {
    /// The label that `buffer_label` returns.
    spec fn spec_buffer_label() -> &'static str;

    /// Debug label attached to the buffers built from records of this type.
    fn buffer_label() -> (r: &'static str)
        ensures
            r == Self::spec_buffer_label(),
    ;
}

/// Relies on bytemuck::cast_slice: viewing records as bytes keeps every byte,
/// so the byte length is the record count times the record size.
#[verifier::external_body]
fn records_as_bytes<D: bytemuck::Pod>(records: &[D]) -> (r: Vec<u8>)
    ensures
        r@.len() == records@.len() * size_of::<D>(),
{
    bytemuck::cast_slice::<D, u8>(records).to_vec()
}

/// The instance records of one entity, in the order the shader indexes them.
pub struct InstanceDataVec<D>(pub Vec<D>);

impl<D: Copy> InstanceDataVec<D> {
    /// The records, in order.
    pub open spec fn records(&self) -> Seq<D> {
        self.0@
    }

    /// The render-side copy of a snapshot, taken once per frame.
    pub fn extract_component(item: &InstanceDataVec<D>) -> (r: Option<InstanceDataVec<D>>)
        ensures
            r is Some,
            r->0.records() == item.records(),
    {
        let mut records: Vec<D> = Vec::new();
        let mut i: usize = 0;
        while i < item.0.len()
            invariant
                i <= item.0@.len(),
                records@ == item.0@.take(i as int),
            decreases item.0@.len() - i,
        {
            records.push(item.0[i]);
            i = i + 1;
        }
        assert(item.0@.take(item.0@.len() as int) == item.0@);
        Some(InstanceDataVec(records))
    }
}

/// The bytes of one entity's instance records, ready for upload as a vertex
/// buffer, together with the number of records.
pub struct InstanceBuffer {
    pub label: &'static str,
    pub contents: Vec<u8>,
    pub length: usize,
}

/// Builds an instance buffer from a snapshot: every record's bytes, in
/// order, and the record count. An empty snapshot gives an empty buffer of
/// length zero.
pub fn build_instance_buffer<D: Copy + bytemuck::Pod>(data: &InstanceDataVec<D>, label: &'static str) -> (r:
    InstanceBuffer)
    ensures
        r.label == label,
        r.length == data.records().len(),
        r.contents@.len() == data.records().len() * size_of::<D>(),
{
    let contents = records_as_bytes(data.0.as_slice());
    InstanceBuffer { label, contents, length: data.0.len() }
}

/// Builds the instance buffer of one entity, labelled after its record type.
pub fn prepare_instance_buffer<D: InstanceData + bytemuck::Pod>(data: &InstanceDataVec<D>) -> (r: InstanceBuffer)
    ensures
        r.label == D::spec_buffer_label(),
        r.length == data.records().len(),
        r.contents@.len() == data.records().len() * size_of::<D>(),
{
    build_instance_buffer(data, D::buffer_label())
}

/// Builds, for each entity's snapshot, its instance buffer, at the same
/// position.
pub fn prepare_instance_buffers<D: InstanceData + bytemuck::Pod>(snapshots: &Vec<InstanceDataVec<D>>) -> (r: Vec<
    InstanceBuffer,
>)
    ensures
        r@.len() == snapshots@.len(),
        forall|i: int|
            0 <= i < r@.len() ==> {
                &&& (#[trigger] r@[i]).label == D::spec_buffer_label()
                &&& r@[i].length == snapshots@[i].records().len()
                &&& r@[i].contents@.len() == snapshots@[i].records().len() * size_of::<D>()
            },
{
    let mut buffers: Vec<InstanceBuffer> = Vec::new();
    let mut i: usize = 0;
    while i < snapshots.len()
        invariant
            i <= snapshots@.len(),
            buffers@.len() == i,
            forall|j: int|
                0 <= j < i ==> {
                    &&& (#[trigger] buffers@[j]).label == D::spec_buffer_label()
                    &&& buffers@[j].length == snapshots@[j].records().len()
                    &&& buffers@[j].contents@.len() == snapshots@[j].records().len() * size_of::<D>()
                },
        decreases snapshots@.len() - i,
    {
        buffers.push(prepare_instance_buffer(&snapshots[i]));
        i = i + 1;
    }
    buffers
}

} // verus!
