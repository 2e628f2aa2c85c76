use vstd::layout::size_of;
use vstd::prelude::*;

verus! {

/// Usage bit of a buffer that may be the source of a device-side copy.
pub const USAGE_COPY_SRC: u32 = 4;

/// Usage bit of a buffer that may be the destination of a device-side copy.
pub const USAGE_COPY_DST: u32 = 8;

/// Usage bit of a buffer bound as a uniform block.
pub const USAGE_UNIFORM: u32 = 64;

/// The fixed shape of a device buffer: how many elements it holds, the
/// stride of one element in bytes, and the usage bits it was created with.
/// None of these changes over the buffer's lifetime.
pub struct BufferShape {
    size: usize,
    stride: usize,
    usage: u32,
}

/// A device-side copy from a freshly filled staging buffer into the whole
/// byte range of the live buffer.
#[derive(PartialEq, Eq, Structural, Clone, Copy, Debug)]
pub struct BufferCopy {
    /// Usage bits the staging buffer is created with.
    pub staging_usage: u32,
    pub source_offset: u64,
    pub destination_offset: u64,
    pub copy_size: u64,
}

#[derive(PartialEq, Eq, Structural, Clone, Copy, Debug)]
pub enum BufferError {
    /// The new contents hold another number of elements than the buffer.
    LengthMismatch { expected: usize, found: usize },
}

impl BufferShape {
    pub closed spec fn element_count(&self) -> nat {
        self.size as nat
    }

    pub closed spec fn element_stride(&self) -> nat {
        self.stride as nat
    }

    pub closed spec fn usage_bits(&self) -> u32 {
        self.usage
    }

    pub open spec fn byte_length(&self) -> nat {
        self.element_count() * self.element_stride()
    }

    pub closed spec fn wf(&self) -> bool {
        self.size * self.stride <= usize::MAX
    }

    /// What an update with `new_len` elements does: a copy of the whole
    /// buffer from a staging buffer when the length matches, an error
    /// otherwise.
    pub open spec fn update_outcome(&self, new_len: nat) -> Result<BufferCopy, BufferError> {
        if new_len == self.element_count() {
            Ok(
                BufferCopy {
                    staging_usage: USAGE_COPY_SRC,
                    source_offset: 0,
                    destination_offset: 0,
                    copy_size: self.byte_length() as u64,
                },
            )
        } else {
            Err(
                BufferError::LengthMismatch {
                    expected: self.element_count() as usize,
                    found: new_len as usize,
                },
            )
        }
    }

    /// The shape of a buffer created from `size` elements of `stride` bytes.
    pub fn new(size: usize, stride: usize, usage: u32) -> (r: BufferShape)
        requires
            size * stride <= usize::MAX,
        ensures
            r.wf(),
            r.element_count() == size,
            r.element_stride() == stride,
            r.usage_bits() == usage,
    {
        BufferShape { size, stride, usage }
    }

    pub fn usage(&self) -> (r: u32)
        ensures
            r == self.usage_bits(),
    {
        self.usage
    }

    pub fn element_len(&self) -> (r: usize)
        ensures
            r == self.element_count(),
    {
        self.size
    }

    pub fn stride(&self) -> (r: usize)
        ensures
            r == self.element_stride(),
    {
        self.stride
    }

    pub fn get_byte_length(&self) -> (r: usize)
        requires
            self.wf(),
        ensures
            r == self.byte_length(),
    {
        self.size * self.stride
    }

    /// Plans an update of the buffer with `new_len` elements. The element
    /// count is fixed at creation, so another length is refused; a matching
    /// one is written through a staging buffer, never in place.
    pub fn plan_update(&self, new_len: usize) -> (r: Result<BufferCopy, BufferError>)
        requires
            self.wf(),
        ensures
            r == self.update_outcome(new_len as nat),
            r is Err <==> new_len != self.element_count(),
    {
        if new_len != self.size {
            return Err(BufferError::LengthMismatch { expected: self.size, found: new_len });
        }
        let len = self.get_byte_length();
        Ok(
            BufferCopy {
                staging_usage: USAGE_COPY_SRC,
                source_offset: 0,
                destination_offset: 0,
                copy_size: len as u64,
            },
        )
    }
}

#[verifier::external_type_specification]
#[verifier::external_body]
pub struct ExDevice(wgpu::Device);

#[verifier::external_type_specification]
#[verifier::external_body]
pub struct ExBuffer(wgpu::Buffer);

#[verifier::external_type_specification]
#[verifier::external_body]
pub struct ExCommandEncoder(wgpu::CommandEncoder);

/// Relies on wgpu::Device::create_buffer_mapped, which panics on a zero-sized
/// element type, and on CreateBufferMapped::fill_from_slice, whose mapped
/// slice has `value.len()` elements, so its length check holds.
#[verifier::external_body]
fn create_buffer<T: 'static + Copy>(device: &wgpu::Device, value: &[T], usage: u32) -> (r:
    wgpu::Buffer)
    requires
        size_of::<T>() > 0,
{
    device.create_buffer_mapped(value.len(), wgpu::BufferUsage::from_bits_truncate(usage))
        .fill_from_slice(value)
}

/// The buffer-to-buffer copies recorded into an encoder, in recording order.
pub uninterp spec fn recorded_copies(e: wgpu::CommandEncoder) -> Seq<BufferCopy>;

/// Relies on wgpu::CommandEncoder::copy_buffer_to_buffer, which records this
/// one copy into the encoder and panics unless the source was created with
/// the copy-source usage and the destination with the copy-destination usage.
/// wgpu does not check the copied range itself, so it is bounded here by
/// both buffers' byte lengths.
#[verifier::external_body]
fn record_copy(
    encoder: &mut wgpu::CommandEncoder,
    source: &WGPUBuffer,
    destination: &WGPUBuffer,
    copy: BufferCopy,
)
    requires
        source.shape().wf(),
        destination.shape().wf(),
        copy.staging_usage == source.shape().usage_bits(),
        source.shape().usage_bits() & USAGE_COPY_SRC != 0,
        destination.shape().usage_bits() & USAGE_COPY_DST != 0,
        copy.source_offset + copy.copy_size <= source.shape().byte_length(),
        copy.destination_offset + copy.copy_size <= destination.shape().byte_length(),
    ensures
        recorded_copies(*final(encoder)) == recorded_copies(*old(encoder)).push(copy),
{
    encoder.copy_buffer_to_buffer(
        &source.gpu_buffer,
        copy.source_offset,
        &destination.gpu_buffer,
        copy.destination_offset,
        copy.copy_size,
    )
}

/// A device buffer whose element count and stride are fixed at creation.
pub struct WGPUBuffer {
    gpu_buffer: wgpu::Buffer,
    shape: BufferShape,
}

impl WGPUBuffer {
    pub closed spec fn shape(&self) -> BufferShape {
        self.shape
    }

    /// Allocates a buffer holding `value`, with the usage bits `usage`.
    pub fn new<T: 'static + Copy>(device: &wgpu::Device, value: &[T], usage: u32) -> (r: Self)
        requires
            size_of::<T>() > 0,
            value@.len() * size_of::<T>() <= usize::MAX,
        ensures
            r.shape().wf(),
            r.shape().element_count() == value@.len(),
            r.shape().element_stride() == size_of::<T>(),
            r.shape().usage_bits() == usage,
    {
        let stride = core::mem::size_of::<T>();
        let shape = BufferShape::new(value.len(), stride, usage);
        WGPUBuffer { gpu_buffer: create_buffer(device, value, usage), shape }
    }

    pub fn usage(&self) -> (r: u32)
        ensures
            r == self.shape().usage_bits(),
    {
        self.shape.usage()
    }

    pub fn get_byte_length(&self) -> (r: usize)
        requires
            self.shape().wf(),
        ensures
            r == self.shape().byte_length(),
    {
        self.shape.get_byte_length()
    }

    pub fn buffer_shape(&self) -> (r: &BufferShape)
        ensures
            *r == self.shape(),
    {
        &self.shape
    }

    pub fn get_gpu_buffer(&self) -> (r: &wgpu::Buffer) {
        &self.gpu_buffer
    }

    /// Replaces the contents with `value`: a staging buffer is filled with it
    /// and one copy of the whole byte range into this buffer is recorded into
    /// `encoder`, so nothing the device still reads is overwritten early. The
    /// buffer itself is neither reallocated nor reshaped.
    pub fn update<T: 'static + Copy>(
        &mut self,
        device: &wgpu::Device,
        encoder: &mut wgpu::CommandEncoder,
        value: &[T],
    ) -> (r: &Self)
        requires
            old(self).shape().wf(),
            value@.len() == old(self).shape().element_count(),
            size_of::<T>() == old(self).shape().element_stride(),
            size_of::<T>() > 0,
            old(self).shape().usage_bits() & USAGE_COPY_DST != 0,
        ensures
            *final(self) == *old(self),
            *r == *final(self),
            recorded_copies(*final(encoder)) == recorded_copies(*old(encoder)).push(
                old(self).shape().update_outcome(value@.len())->Ok_0,
            ),
    {
        let copy = match self.shape.plan_update(value.len()) {
            Ok(c) => c,
            Err(_) => unreached(),
        };
        proof {
            assert(USAGE_COPY_SRC & USAGE_COPY_SRC != 0) by (bit_vector);
        }
        let staging = WGPUBuffer::new(device, value, USAGE_COPY_SRC);
        record_copy(encoder, &staging, self, copy);
        self
    }

    /// Like `update`, but refuses contents of another element count than the
    /// buffer holds instead of requiring the caller to rule them out.
    pub fn try_update<T: 'static + Copy>(
        &mut self,
        device: &wgpu::Device,
        encoder: &mut wgpu::CommandEncoder,
        value: &[T],
    ) -> (r: Result<(), BufferError>)
        requires
            old(self).shape().wf(),
            size_of::<T>() == old(self).shape().element_stride(),
            size_of::<T>() > 0,
            old(self).shape().usage_bits() & USAGE_COPY_DST != 0,
        ensures
            *final(self) == *old(self),
            r is Err <==> value@.len() != old(self).shape().element_count(),
            r matches Err(e) ==> e == (BufferError::LengthMismatch {
                expected: old(self).shape().element_count() as usize,
                found: value@.len() as usize,
            }),
            r is Ok ==> recorded_copies(*final(encoder)) == recorded_copies(*old(encoder)).push(
                old(self).shape().update_outcome(value@.len())->Ok_0,
            ),
            r is Err ==> *final(encoder) == *old(encoder),
    {
        match self.shape.plan_update(value.len()) {
            Err(e) => Err(e),
            Ok(_) => {
                self.update(device, encoder, value);
                Ok(())
            },
        }
    }
}

/// An update with another element count than the buffer was created with
/// always fails; one with the same count copies exactly the buffer's byte
/// length, which therefore stays what it was.
pub proof fn lemma_update_keeps_byte_length(b: BufferShape, new_len: nat)
    requires
        b.wf(),
    ensures
        new_len != b.element_count() ==> b.update_outcome(new_len) is Err,
        new_len == b.element_count() ==> b.update_outcome(new_len) is Ok
            && b.update_outcome(new_len)->Ok_0.copy_size == b.byte_length()
            && b.update_outcome(new_len)->Ok_0.destination_offset == 0,
{
    assert(b.byte_length() <= usize::MAX);
}

} // verus!
