//! The stage that tells which cameras there are.

use vstd::prelude::*;
use vstd::array::array_as_slice;
use vstd::slice::slice_subrange;
use vstd::std_specs::convert::FromSpecImpl;
use crate::error::{MmalError, MmalStatus};
use crate::mmalcore::{
    creation,
    Component,
    ComponentEntity,
    ComponentHandle,
    ComponentPort,
    Entity,
    PortSelector,
};
use crate::native::{
    MMAL_COMPONENT_DEFAULT_CAMERA_INFO,
    MMAL_PARAMETER_CAMERA_INFO,
    MMAL_PARAMETER_CAMERA_INFO_MAX_CAMERAS,
    MMAL_PARAMETER_CAMERA_INFO_MAX_STR_LEN,
    MMAL_PARAMETER_CAMERA_INFO_SIZE,
    MMAL_SUCCESS,
};
use crate::param::{InnerParamType, Param, ParameterHeader};

verus! {

/// What is known of one camera.
#[derive(Debug, Clone)]
pub struct CameraInstanceInfo {
    pub port_id: u32,
    pub max_width: u32,
    pub max_height: u32,
    pub lens_present: bool,
    pub camera_name: String,
}

impl Default for CameraInstanceInfo {
    fn default() -> (r: Self)
        ensures
            r.port_id == 0,
            r.max_width == 0,
            r.max_height == 0,
            !r.lens_present,
            r.camera_name@ == Seq::<char>::empty(),
    {
        Self {
            port_id: 0,
            max_width: 0,
            max_height: 0,
            lens_present: false,
            camera_name: String::new(),
        }
    }
}

/// What is known of the cameras.
#[derive(Debug, Clone)]
pub struct CameraInfo {
    pub cameras: Vec<CameraInstanceInfo>,
}

impl Default for CameraInfo {
    fn default() -> (r: Self)
        ensures
            r.cameras@.len() == 0,
    {
        Self { cameras: Vec::new() }
    }
}

//------------------------------------------------------------------------------------------------------------------------------
/// The stage that tells which cameras there are.
#[derive(Debug)]
pub struct CameraInfoEntity;

impl Entity for CameraInfoEntity {
    open spec fn spec_name() -> Seq<char> {
        "camera-info"@
    }

    fn name() -> (r: &'static str) {
        "camera-info"
    }
}

impl ComponentEntity for CameraInfoEntity {

}

pub type CameraInfoComponentHandle = ComponentHandle<CameraInfoEntity>;

impl ComponentHandle<CameraInfoEntity> {
    /// Creates the stage. `native` asks the native layer for the stage under
    /// its name and answers with its description, or with the status of the
    /// refusal.
    pub fn create<F: FnOnce(&str) -> Result<Component, MmalStatus>>(native: F) -> (r: Result<
        Self,
        MmalError,
    >)
        requires
            call_requires(native, (MMAL_COMPONENT_DEFAULT_CAMERA_INFO,)),
        ensures
            exists|answer: Result<Component, MmalStatus>| #[trigger]
                call_ensures(native, (MMAL_COMPONENT_DEFAULT_CAMERA_INFO,), answer) && creation(
                    answer,
                    r,
                ),
    {
        Self::create_from(MMAL_COMPONENT_DEFAULT_CAMERA_INFO, native)
    }
}

#[derive(Debug)]
pub struct CameraInfoControlPort;

impl ComponentPort for CameraInfoControlPort {
    type E = CameraInfoEntity;

    open spec fn spec_name() -> Seq<char> {
        "camera-info control port"@
    }

    open spec fn spec_selector() -> PortSelector {
        PortSelector::Control
    }

    fn selector() -> (s: PortSelector) {
        PortSelector::Control
    }

    fn name() -> (r: &'static str) {
        "camera-info control port"
    }
}

//------------------------------------------------------------------------------------------------------------------------------
/// One camera in the native record of the camera information. The name is a
/// string of bytes that a zero byte ends.
#[derive(Debug, Clone, Copy)]
pub struct CameraInfoCamera {
    pub port_id: u32,
    pub max_width: u32,
    pub max_height: u32,
    pub lens_present: i32,
    pub camera_name: [u8; 16],
}

/// The native record of the camera information.
#[derive(Debug, Clone, Copy)]
pub struct CameraInfoBlock {
    pub hdr: ParameterHeader,
    pub num_cameras: u32,
    pub num_flashes: u32,
    pub cameras: [CameraInfoCamera; 4],
    pub flashes: [u32; 2],
}

/// The text that the standard library reads out of bytes as UTF-8, with the
/// replacement character in the place of what is not UTF-8.
pub uninterp spec fn lossy_text(bytes: Seq<u8>) -> Seq<char>;

/// Calls `String::from_utf8_lossy` of the standard library, which reads
/// bytes as UTF-8 and puts the replacement character in the place of
/// whatever is not, and makes a string of what it returns. The result is
/// claimed to be a function of the bytes, and, as the standard library
/// documents, to be the text that the bytes encode where they are UTF-8.
#[verifier::external_body]
fn lossy_string(bytes: &[u8]) -> (s: String)
    ensures
        s@ == lossy_text(bytes@),
        vstd::utf8::valid_utf8(bytes@) ==> s@ == vstd::utf8::decode_utf8(bytes@),
{
    String::from_utf8_lossy(bytes).into_owned()
}

/// Number of the bytes of a name before the zero byte that ends it, or of
/// all the bytes where none is zero.
pub open spec fn name_length(bytes: Seq<u8>) -> int
    decreases bytes.len(),
{
    if bytes.len() == 0 || bytes[0] == 0 {
        0
    } else {
        1 + name_length(bytes.drop_first())
    }
}

/// The first index at which all the bytes before are not zero and the byte
/// itself is zero or past the end is the length of the name.
pub proof fn lemma_name_length_is(bytes: Seq<u8>, n: int)
    requires
        0 <= n <= bytes.len(),
        forall|i: int| 0 <= i < n ==> bytes[i] != 0,
        n < bytes.len() ==> bytes[n] == 0,
    ensures
        name_length(bytes) == n,
    decreases bytes.len(),
{
    if bytes.len() == 0 || bytes[0] == 0 {
        if n > 0 {
            assert(bytes[0] != 0);
        }
    } else {
        assert(n > 0);
        assert forall|i: int| 0 <= i < n - 1 implies bytes.drop_first()[i] != 0 by {
            assert(bytes.drop_first()[i] == bytes[i + 1]);
        }
        if n - 1 < bytes.drop_first().len() {
            assert(bytes.drop_first()[n - 1] == bytes[n]);
        }
        lemma_name_length_is(bytes.drop_first(), n - 1);
    }
}

/// The name that a camera of the native record carries.
pub open spec fn camera_name(raw: CameraInfoCamera) -> Seq<char> {
    lossy_text(camera_name_bytes(raw))
}

/// The bytes of the name of a camera of the native record: those before the
/// zero byte.
pub open spec fn camera_name_bytes(raw: CameraInfoCamera) -> Seq<u8> {
    raw.camera_name@.take(name_length(raw.camera_name@))
}

/// Whether `info` describes the camera `raw` of the native record: the
/// numbers are the same, the lens is present where its native integer is not
/// zero, and the name is the text of the bytes before the zero byte, which
/// is the text that they encode where they are UTF-8.
pub open spec fn describes(info: CameraInstanceInfo, raw: CameraInfoCamera) -> bool {
    &&& info.port_id == raw.port_id
    &&& info.max_width == raw.max_width
    &&& info.max_height == raw.max_height
    &&& info.lens_present == (raw.lens_present != 0)
    &&& info.camera_name@ == camera_name(raw)
    &&& vstd::utf8::valid_utf8(camera_name_bytes(raw)) ==> info.camera_name@
        == vstd::utf8::decode_utf8(camera_name_bytes(raw))
}

/// Number of the cameras that a record describes: what it says, and no more
/// than it has room for.
pub open spec fn camera_count(b: CameraInfoBlock) -> int {
    if b.num_cameras < MMAL_PARAMETER_CAMERA_INFO_MAX_CAMERAS {
        b.num_cameras as int
    } else {
        MMAL_PARAMETER_CAMERA_INFO_MAX_CAMERAS as int
    }
}

/// Whether `info` is the camera information of the native record `b`: it
/// lists the cameras of the record in their order.
pub open spec fn informs(info: CameraInfo, b: CameraInfoBlock) -> bool {
    &&& info.cameras@.len() == camera_count(b)
    &&& forall|i: int|
        0 <= i < camera_count(b) ==> describes(#[trigger] info.cameras@[i], b.cameras@[i])
}

/// Makes of the description of a camera, with its name read already, what
/// is known of the camera.
pub fn instance_info(raw: &CameraInfoCamera, camera_name: String) -> (info: CameraInstanceInfo)
    ensures
        info.port_id == raw.port_id,
        info.max_width == raw.max_width,
        info.max_height == raw.max_height,
        info.lens_present == (raw.lens_present != 0),
        info.camera_name == camera_name,
{
    CameraInstanceInfo {
        port_id: raw.port_id,
        max_width: raw.max_width,
        max_height: raw.max_height,
        lens_present: raw.lens_present != 0,
        camera_name,
    }
}

/// The bytes of a name before the zero byte that ends it.
pub fn name_bytes(name: &[u8; 16]) -> (bytes: &[u8])
    ensures
        bytes@ == name@.take(name_length(name@)),
{
    broadcast use vstd::array::array_len_matches_n;

    let mut n: usize = 0;
    while n < MMAL_PARAMETER_CAMERA_INFO_MAX_STR_LEN && name[n] != 0
        invariant
            n <= 16,
            name@.len() == 16,
            forall|i: int| 0 <= i < n ==> name@[i] != 0,
        decreases 16 - n,
    {
        n = n + 1;
    }
    proof {
        lemma_name_length_is(name@, n as int);
    }
    slice_subrange(array_as_slice(name), 0, n)
}

/// The camera information as a parameter.
#[derive(Debug)]
pub struct CameraInfoInnerType {
    inner: CameraInfoBlock,
}

impl View for CameraInfoInnerType {
    type V = CameraInfoBlock;

    closed spec fn view(&self) -> CameraInfoBlock {
        self.inner
    }
}

impl CameraInfoInnerType {
    /// The record of the parameter.
    pub fn block(&self) -> (b: CameraInfoBlock)
        ensures
            b == self@,
    {
        self.inner
    }

    /// The parameter that holds a record.
    pub fn from_block(block: CameraInfoBlock) -> (r: Self)
        ensures
            r@ == block,
    {
        Self { inner: block }
    }
}

impl<'a> From<&'a CameraInfoInnerType> for CameraInfo {
    fn from(value: &'a CameraInfoInnerType) -> (info: Self)
        ensures
            informs(info, value@),
    {
        broadcast use vstd::array::array_len_matches_n;

        let count: usize = if (value.inner.num_cameras as usize)
            < MMAL_PARAMETER_CAMERA_INFO_MAX_CAMERAS {
            value.inner.num_cameras as usize
        } else {
            MMAL_PARAMETER_CAMERA_INFO_MAX_CAMERAS
        };
        let mut cameras: Vec<CameraInstanceInfo> = Vec::new();
        let mut i: usize = 0;
        while i < count
            invariant
                count == camera_count(value@),
                count <= 4,
                i <= count,
                cameras@.len() == i,
                forall|j: int|
                    0 <= j < i ==> describes(#[trigger] cameras@[j], value@.cameras@[j]),
            decreases count - i,
        {
            let raw = value.inner.cameras[i];
            let name = lossy_string(name_bytes(&raw.camera_name));
            cameras.push(instance_info(&raw, name));
            i = i + 1;
        }
        Self { cameras }
    }
}

impl<'a> FromSpecImpl<&'a CameraInfoInnerType> for CameraInfo {
    open spec fn obeys_from_spec() -> bool {
        false
    }

    open spec fn from_spec(v: &'a CameraInfoInnerType) -> Self {
        choose|info: CameraInfo| informs(info, v@)
    }
}

impl Default for CameraInfoInnerType {
    fn default() -> (r: Self)
        ensures
            r@.hdr == (ParameterHeader {
                id: MMAL_PARAMETER_CAMERA_INFO,
                size: MMAL_PARAMETER_CAMERA_INFO_SIZE,
            }),
            r@.num_cameras == 0,
            r@.num_flashes == 0,
    {
        let camera = CameraInfoCamera {
            port_id: 0,
            max_width: 0,
            max_height: 0,
            lens_present: 0,
            camera_name: vstd::array::array_fill_for_copy_types(0u8),
        };
        Self {
            inner: CameraInfoBlock {
                hdr: ParameterHeader {
                    id: MMAL_PARAMETER_CAMERA_INFO,
                    size: MMAL_PARAMETER_CAMERA_INFO_SIZE,
                },
                num_cameras: 0,
                num_flashes: 0,
                cameras: vstd::array::array_fill_for_copy_types(camera),
                flashes: vstd::array::array_fill_for_copy_types(0u32),
            },
        }
    }
}

impl InnerParamType for CameraInfoInnerType {
    type Raw = CameraInfoBlock;

    open spec fn spec_name() -> Seq<char> {
        "CameraInfo"@
    }

    open spec fn spec_id(&self) -> u32 {
        self@.hdr.id
    }

    open spec fn raw(&self) -> CameraInfoBlock {
        self@
    }

    closed spec fn absorb(self, raw: CameraInfoBlock) -> Self {
        Self { inner: raw }
    }

    fn name() -> (r: &'static str) {
        "CameraInfo"
    }

    fn set_param<F: FnOnce(usize, u32, &CameraInfoBlock) -> MmalStatus>(
        &self,
        port: usize,
        native: F,
    ) -> (status: MmalStatus) {
        native(port, self.inner.hdr.id, &self.inner)
    }

    fn get_param<F: FnOnce(usize, u32, &CameraInfoBlock) -> (MmalStatus, CameraInfoBlock)>(
        &mut self,
        port: usize,
        native: F,
    ) -> (status: MmalStatus) {
        let (status, raw) = native(port, self.inner.hdr.id, &self.inner);
        if status == MMAL_SUCCESS {
            self.inner = raw;
        }
        status
    }
}

pub type CameraInformation = Param<CameraInfoControlPort, CameraInfoInnerType>;

} // verus!
