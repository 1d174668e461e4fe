//! Plain values that cross the C boundary.
//!
//! Named constants of the C headers appear here as enum variants. Codes that only pass
//! through a conversion stay plain integers.

use vstd::prelude::*;

verus! {

pub type WGPUBool = u32;

/// The code of a backend, as it is written out.
pub type WGPUBackendCode = u32;

pub type WGPUAdapterType = u32;

pub type WGPUCompositeAlphaMode = u32;

pub type WGPUFeatureName = u32;

pub type WGPUPresentMode = u32;

pub type WGPUQueryType = u32;

pub type WGPUTextureDimension = u32;

pub type WGPUTextureFormat = u32;

pub type WGPUTextureUsage = u64;

/// An opaque user pointer, as its address.
pub type UserPointer = usize;

#[derive(Clone, Copy, Debug, PartialEq, Eq, Structural)]
pub enum WGPUStatus {
    Success,
    Error,
}

#[derive(Clone, Copy, Debug, PartialEq, Eq, Structural)]
pub enum WGPUSurfaceGetCurrentTextureStatus {
    SuccessOptimal,
    SuccessSuboptimal,
    Timeout,
    Outdated,
    Lost,
    Error,
}

#[derive(Clone, Copy, Debug, PartialEq, Eq, Structural)]
pub enum WGPUPowerPreference {
    LowPower,
    HighPerformance,
    /// Any other code.
    Other(u32),
}

#[derive(Clone, Copy, Debug, PartialEq, Eq, Structural)]
pub enum WGPUBackendType {
    Undefined,
    Null,
    WebGPU,
    D3D11,
    D3D12,
    Metal,
    Vulkan,
    OpenGL,
    OpenGLES,
    /// Any other code.
    Other(u32),
}

#[derive(Clone, Copy, Debug, PartialEq, Eq, Structural)]
pub enum WGPURequestAdapterStatus {
    Error,
}

#[derive(Clone, Copy, Debug, PartialEq, Eq, Structural)]
pub enum WGPUQueueWorkDoneStatus {
    Success,
}

#[derive(Clone, Copy, Debug, PartialEq, Eq, Structural)]
pub enum WGPUErrorType {
    Validation,
    OutOfMemory,
}

#[derive(Clone, Copy, Debug, PartialEq, Eq, Structural)]
pub enum WGPUDeviceLostReason {
    Destroyed,
}

/// A ticket for an asynchronous operation.
#[derive(Clone, Copy, Debug, PartialEq, Eq, Structural)]
pub struct WGPUFuture {
    pub id: u64,
}

impl WGPUFuture {
    pub open spec fn spec_null() -> WGPUFuture {
        WGPUFuture { id: 0 }
    }

    /// The future that stands for no operation.
    #[verifier::when_used_as_spec(spec_null)]
    pub fn null() -> (future: WGPUFuture)
        ensures
            future == WGPUFuture::spec_null(),
    {
        WGPUFuture { id: 0 }
    }
}

/// The two user pointers that travel with a callback.
#[derive(Clone, Copy, Debug, PartialEq, Eq, Structural)]
pub struct Userdata {
    pub userdata1: UserPointer,
    pub userdata2: UserPointer,
}

impl Userdata {
    pub open spec fn spec_null() -> Userdata {
        Userdata { userdata1: 0, userdata2: 0 }
    }

    /// Two null pointers.
    #[verifier::when_used_as_spec(spec_null)]
    pub fn null() -> (userdata: Userdata)
        ensures
            userdata == Userdata::spec_null(),
    {
        Userdata { userdata1: 0, userdata2: 0 }
    }
}

/// A C array: its memory, or nothing for the null pointer, and the number of its items.
#[derive(Debug)]
pub struct NativeArray<P> {
    pub data: Option<P>,
    pub count: usize,
}

impl<P> NativeArray<P> {
    /// The memory to give back, with the number of items in it.
    pub open spec fn owned(&self) -> Option<(P, usize)> {
        match self.data {
            Some(data) if self.count > 0 => Some((data, self.count)),
            _ => None,
        }
    }

    /// The memory to give back, with the number of items in it: there is some if the pointer is
    /// not null and the array not empty.
    pub fn into_owned(self) -> (owned: Option<(P, usize)>)
        ensures
            owned == self.owned(),
            owned is Some <==> self.data is Some && self.count > 0,
            owned matches Some((data, count)) ==> self.data == Some(data) && self.count == count,
    {
        match self.data {
            Some(data) => if self.count > 0 {
                Some((data, self.count))
            } else {
                None
            },
            None => None,
        }
    }
}

impl<P> NativeArray<P> {
    /// Memory is given back exactly where there is some, with the count that came with it: neither
    /// a null pointer nor an empty array is freed, and nothing else is kept.
    pub proof fn law_only_memory_with_items_is_given_back(&self)
        ensures
            self.owned() is Some <==> self.data is Some && self.count > 0,
            self.owned() matches Some((data, count)) ==> self.data == Some(data) && self.count
                == count,
    {
    }
}

impl<T> NativeArray<Vec<T>> {
    pub open spec fn contents(&self) -> Seq<T> {
        match self.data {
            Some(items) => items@,
            None => Seq::empty(),
        }
    }

    /// The count is that of the items in memory.
    pub open spec fn wf(&self) -> bool {
        self.count == self.contents().len()
    }

    /// An array with the items. Without any, the pointer is null.
    pub fn null_if_empty(items: Vec<T>) -> (array: NativeArray<Vec<T>>)
        ensures
            array.wf(),
            array.contents() == items@,
            array.data is None <==> items@.len() == 0,
            array.data matches Some(data) ==> data == items,
            array.count == items@.len(),
    {
        let count: usize = items.len();
        if count > 0 {
            NativeArray { data: Some(items), count }
        } else {
            NativeArray { data: None, count: 0 }
        }
    }

    /// An array with the items. The pointer is never null.
    pub fn never_null(items: Vec<T>) -> (array: NativeArray<Vec<T>>)
        ensures
            array.wf(),
            array.data == Some(items),
            array.count == items@.len(),
    {
        let count: usize = items.len();
        NativeArray { data: Some(items), count }
    }

    /// The contents of an array are the items behind its pointer, and there are none behind a null
    /// pointer. The count of a well-formed array is theirs.
    pub proof fn law_contents_are_behind_the_pointer(&self)
        ensures
            self.data matches Some(items) ==> self.contents() == items@,
            self.data is None ==> self.contents().len() == 0,
            self.wf() <==> self.count == (match self.data {
                Some(items) => items@.len() as int,
                None => 0,
            }),
    {
    }

    /// Whatever was put into an array is given back, all of it: nothing stays behind in memory.
    pub proof fn law_all_memory_is_given_back(&self)
        requires
            self.wf(),
        ensures
            match self.owned() {
                Some((items, count)) => items@ == self.contents() && count == items@.len(),
                None => self.contents().len() == 0,
            },
    {
    }
}

} // verus!
