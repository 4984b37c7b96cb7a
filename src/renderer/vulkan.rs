use vstd::prelude::*;
use crate::io::{append_signed_decimal, signed_decimal, LiquidError, LiquidErrorKind};
use crate::renderer::{LiquidCreateRendererInfo, LiquidRendererDevices, VulkanStep};
use crate::window::LiquidWindow;

verus! {

/// A GPU object the Vulkan backend owns.
#[derive(Clone, Copy, Debug, PartialEq, Eq, Structural)]
pub enum VulkanObject {
    Entry,
    Instance,
    DebugMessenger,
    Device,
}

/// The order in which the backend's objects come to life; the debug messenger
/// exists in debug builds only. Each depends on those before it.
pub open spec fn creation_order(debug: bool) -> Seq<VulkanObject> {
    if debug {
        seq![VulkanObject::Entry, VulkanObject::Instance, VulkanObject::DebugMessenger, VulkanObject::Device]
    } else {
        seq![VulkanObject::Entry, VulkanObject::Instance, VulkanObject::Device]
    }
}

/// The objects alive when `step` is about to run (none once construction failed:
/// they were released).
pub open spec fn acquired_before(debug: bool, step: VulkanStep) -> Seq<VulkanObject> {
    match step {
        VulkanStep::LoadEntry => Seq::empty(),
        VulkanStep::CreateInstance => seq![VulkanObject::Entry],
        VulkanStep::InstallDebugMessenger => seq![VulkanObject::Entry, VulkanObject::Instance],
        VulkanStep::Complete => creation_order(debug),
        VulkanStep::Failed => Seq::empty(),
        _ => creation_order(debug).drop_last(),
    }
}

/// The step that follows `step` when it succeeds.
pub open spec fn next_step(debug: bool, step: VulkanStep) -> VulkanStep {
    match step {
        VulkanStep::LoadEntry => VulkanStep::CreateInstance,
        VulkanStep::CreateInstance => if debug {
            VulkanStep::InstallDebugMessenger
        } else {
            VulkanStep::EnumerateDevices
        },
        VulkanStep::InstallDebugMessenger => VulkanStep::EnumerateDevices,
        VulkanStep::EnumerateDevices => VulkanStep::QueryQueueFamilies,
        VulkanStep::QueryQueueFamilies => VulkanStep::CreateDevice,
        VulkanStep::CreateDevice => VulkanStep::Complete,
        VulkanStep::Complete => VulkanStep::Complete,
        VulkanStep::Failed => VulkanStep::Failed,
    }
}

/// What the driver answered to one step.
pub enum StepOutcome {
    /// The step succeeded.
    Done,
    /// The physical devices, in enumeration order.
    Devices(Vec<LiquidRendererDevices>),
    /// The step failed: the driver's status code (0 where there is none) and
    /// the description the driver or loader gave.
    Error(i32, String),
}

/// Whether `outcome` lets construction go past `step`: enumeration must find
/// at least one device.
pub open spec fn step_succeeds(step: VulkanStep, outcome: &StepOutcome) -> bool {
    match outcome {
        StepOutcome::Done => step != VulkanStep::EnumerateDevices,
        StepOutcome::Devices(d) => step != VulkanStep::EnumerateDevices || d@.len() > 0,
        StepOutcome::Error(..) => false,
    }
}

/// The error that a failed `step` raises.
pub open spec fn failure_kind(step: VulkanStep, outcome: &StepOutcome) -> LiquidErrorKind {
    match outcome {
        StepOutcome::Error(code, _) => if step == VulkanStep::LoadEntry {
            LiquidErrorKind::EntryLoad
        } else {
            LiquidErrorKind::GpuStep(step, *code)
        },
        _ => LiquidErrorKind::NoPhysicalDevice,
    }
}

/// What the message of a failed `step` begins with, before the status code.
pub open spec fn step_failure_prefix(step: VulkanStep) -> Seq<char> {
    match step {
        VulkanStep::CreateInstance => "Error while calling create_instance: "@,
        VulkanStep::InstallDebugMessenger => "Unable to install the debug messenger: "@,
        VulkanStep::EnumerateDevices => "Unable to enumerate graphical devices: "@,
        VulkanStep::QueryQueueFamilies => "Unable to query queue families: "@,
        VulkanStep::CreateDevice => "Unable to create device loader: "@,
        _ => "Vulkan construction step failed: "@,
    }
}

/// The message of the error that a failed `step` raises: the loader's
/// description where the entry point cannot be loaded, the driver's status
/// code where a later step is refused.
pub open spec fn failure_message(step: VulkanStep, outcome: &StepOutcome) -> Seq<char> {
    match outcome {
        StepOutcome::Error(code, detail) => if step == VulkanStep::LoadEntry {
            "Unable to load vulkan library "@ + detail@
        } else {
            step_failure_prefix(step) + signed_decimal(*code as int)
        },
        _ => "Unable to find any graphical devices"@,
    }
}

fn step_failure_text(step: VulkanStep, code: i32) -> (r: String)
    ensures
        r@ == step_failure_prefix(step) + signed_decimal(code as int),
{
    let mut r = match step {
        VulkanStep::CreateInstance => String::from_str("Error while calling create_instance: "),
        VulkanStep::InstallDebugMessenger => String::from_str("Unable to install the debug messenger: "),
        VulkanStep::EnumerateDevices => String::from_str("Unable to enumerate graphical devices: "),
        VulkanStep::QueryQueueFamilies => String::from_str("Unable to query queue families: "),
        VulkanStep::CreateDevice => String::from_str("Unable to create device loader: "),
        _ => String::from_str("Vulkan construction step failed: "),
    };
    append_signed_decimal(&mut r, code);
    r
}

/// The Vulkan construction protocol as a state machine: the caller performs the
/// step that `step()` names against the driver and reports what it answered.
/// The first failure ends construction and names, in reverse order of creation,
/// the objects to release, so that nothing half-built outlives it.
pub struct VulkanSetup {
    debug: bool,
    step: VulkanStep,
    devices: Vec<LiquidRendererDevices>,
    error: Option<LiquidError>,
}

impl VulkanSetup {
    pub closed spec fn debug(&self) -> bool {
        self.debug
    }

    pub closed spec fn step(&self) -> VulkanStep {
        self.step
    }

    pub closed spec fn devices(&self) -> Seq<LiquidRendererDevices> {
        self.devices@
    }

    pub closed spec fn error_kind(&self) -> LiquidErrorKind {
        self.error.unwrap().kind
    }

    pub closed spec fn error_msg(&self) -> Seq<char> {
        self.error.unwrap().msg@
    }

    pub open spec fn finished(&self) -> bool {
        self.step() == VulkanStep::Complete || self.step() == VulkanStep::Failed
    }

    /// The objects alive at this point of construction.
    pub open spec fn acquired(&self) -> Seq<VulkanObject> {
        acquired_before(self.debug(), self.step())
    }

    pub closed spec fn wf(&self) -> bool {
        &&& (self.step == VulkanStep::InstallDebugMessenger ==> self.debug)
        &&& (self.step == VulkanStep::Failed <==> self.error is Some)
        &&& (self.step == VulkanStep::QueryQueueFamilies || self.step == VulkanStep::CreateDevice
            || self.step == VulkanStep::Complete ==> self.devices@.len() > 0)
    }

    /// Starts construction; `debug` adds the debug messenger step.
    pub fn new(debug: bool) -> (r: VulkanSetup)
        ensures
            r.wf(),
            r.debug() == debug,
            r.step() == VulkanStep::LoadEntry,
            r.acquired() == Seq::<VulkanObject>::empty(),
    {
        VulkanSetup { debug, step: VulkanStep::LoadEntry, devices: Vec::new(), error: None }
    }

    /// The instance layers this construction requests.
    pub fn requested_instance_layers(&self) -> (r: Vec<String>)
        ensures
            names_of(r@) == instance_layer_names(self.debug()),
    {
        instance_layers(self.debug)
    }

    /// The instance extensions this construction requests on `platform`.
    pub fn requested_instance_extensions(&self, platform: TargetPlatform) -> (r: Vec<String>)
        ensures
            names_of(r@) == instance_extension_names(self.debug(), platform),
    {
        instance_extensions(self.debug, platform)
    }

    /// The step the caller performs next.
    pub fn current_step(&self) -> (r: VulkanStep)
        ensures
            r == self.step(),
    {
        self.step
    }

    /// The objects to release, in this order, when construction fails at `step`.
    fn release_order(debug: bool, step: VulkanStep) -> (r: Vec<VulkanObject>)
        ensures
            r@ == acquired_before(debug, step).reverse(),
    {
        let mut r: Vec<VulkanObject> = Vec::new();
        match step {
            VulkanStep::LoadEntry | VulkanStep::Failed => {},
            VulkanStep::CreateInstance => {
                r.push(VulkanObject::Entry);
            },
            VulkanStep::InstallDebugMessenger => {
                r.push(VulkanObject::Instance);
                r.push(VulkanObject::Entry);
            },
            VulkanStep::Complete => {
                r.push(VulkanObject::Device);
                if debug {
                    r.push(VulkanObject::DebugMessenger);
                }
                r.push(VulkanObject::Instance);
                r.push(VulkanObject::Entry);
            },
            _ => {
                if debug {
                    r.push(VulkanObject::DebugMessenger);
                }
                r.push(VulkanObject::Instance);
                r.push(VulkanObject::Entry);
            },
        }
        proof {
            assert(r@ =~= acquired_before(debug, step).reverse());
        }
        r
    }

    /// Records what the driver answered to the current step. On success the
    /// protocol moves to the next step and nothing is released; on failure it
    /// stops, keeps the error, and returns every object created so far, most
    /// recent first, for the caller to destroy.
    pub fn report(&mut self, outcome: StepOutcome) -> (release: Vec<VulkanObject>)
        requires
            old(self).wf(),
            !old(self).finished(),
        ensures
            final(self).wf(),
            final(self).debug() == old(self).debug(),
            step_succeeds(old(self).step(), &outcome) ==> {
                &&& final(self).step() == next_step(old(self).debug(), old(self).step())
                &&& release@.len() == 0
                &&& final(self).devices() == (match outcome {
                    StepOutcome::Devices(d) => if old(self).step() == VulkanStep::EnumerateDevices {
                        d@
                    } else {
                        old(self).devices()
                    },
                    _ => old(self).devices(),
                })
            },
            !step_succeeds(old(self).step(), &outcome) ==> {
                &&& final(self).step() == VulkanStep::Failed
                &&& release@ == old(self).acquired().reverse()
                &&& final(self).error_kind() == failure_kind(old(self).step(), &outcome)
                &&& final(self).error_msg() == failure_message(old(self).step(), &outcome)
            },
    {
        let step = self.step;
        let succeeded = match &outcome {
            StepOutcome::Done => !matches!(step, VulkanStep::EnumerateDevices),
            StepOutcome::Devices(d) => !matches!(step, VulkanStep::EnumerateDevices) || d.len() > 0,
            StepOutcome::Error(..) => false,
        };
        if succeeded {
            self.step = match step {
                VulkanStep::LoadEntry => VulkanStep::CreateInstance,
                VulkanStep::CreateInstance => if self.debug {
                    VulkanStep::InstallDebugMessenger
                } else {
                    VulkanStep::EnumerateDevices
                },
                VulkanStep::InstallDebugMessenger => VulkanStep::EnumerateDevices,
                VulkanStep::EnumerateDevices => VulkanStep::QueryQueueFamilies,
                VulkanStep::QueryQueueFamilies => VulkanStep::CreateDevice,
                _ => VulkanStep::Complete,
            };
            if matches!(step, VulkanStep::EnumerateDevices) {
                match outcome {
                    StepOutcome::Devices(d) => {
                        self.devices = d;
                    },
                    _ => {},
                }
            }
            Vec::new()
        } else {
            let error = match outcome {
                StepOutcome::Error(code, detail) => if matches!(step, VulkanStep::LoadEntry) {
                    let mut msg = String::from_str("Unable to load vulkan library ");
                    msg.append(detail.as_str());
                    LiquidError::at(
                        LiquidErrorKind::EntryLoad,
                        msg.as_str(),
                        "src/renderer/vulkan.rs",
                        316,
                        21,
                    )
                } else {
                    LiquidError::at(
                        LiquidErrorKind::GpuStep(step, code),
                        step_failure_text(step, code).as_str(),
                        "src/renderer/vulkan.rs",
                        324,
                        21,
                    )
                },
                _ => LiquidError::at(
                    LiquidErrorKind::NoPhysicalDevice,
                    "Unable to find any graphical devices",
                    "src/renderer/vulkan.rs",
                    332,
                    22,
                ),
            };
            let release = Self::release_order(self.debug, step);
            self.step = VulkanStep::Failed;
            self.error = Some(error);
            release
        }
    }
}

/// The Vulkan backend once construction completed: the devices discovered, the
/// first of which is the active one, and the logical screen size. Its GPU
/// objects are held by the caller that performed the driver calls.
#[derive(Debug)]
pub struct LiquidVulkanRenderer {
    screen_width: u32,
    screen_height: u32,
    renderer_devices: Vec<LiquidRendererDevices>,
    debug_messenger: bool,
}

impl LiquidVulkanRenderer {
    /// The devices discovered, in enumeration order; the first is active.
    pub closed spec fn devices(&self) -> Seq<LiquidRendererDevices> {
        self.renderer_devices@
    }

    /// The logical screen width and height.
    pub closed spec fn screen_size(&self) -> (u32, u32) {
        (self.screen_width, self.screen_height)
    }

    /// Whether a debug messenger was installed.
    pub closed spec fn has_debug_messenger(&self) -> bool {
        self.debug_messenger
    }

    pub open spec fn wf(&self) -> bool {
        &&& self.devices().len() > 0
        &&& self.screen_size() == (1080u32, 720u32)
    }

    /// The renderer that a finished construction produced: the renderer if
    /// every step succeeded, else the error of the step that failed.
    pub fn new(setup: VulkanSetup) -> (r: Result<LiquidVulkanRenderer, LiquidError>)
        requires
            setup.wf(),
            setup.finished(),
        ensures
            setup.step() == VulkanStep::Complete ==> (r matches Ok(v) && v.wf()
                && v.devices() == setup.devices() && v.has_debug_messenger() == setup.debug()),
            setup.step() == VulkanStep::Failed ==> (r matches Err(e) && e.kind
                == setup.error_kind() && e.msg@ == setup.error_msg()),
    {
        match setup.error {
            Some(e) => Err(e),
            None => Ok(
                LiquidVulkanRenderer {
                    screen_width: 1080,
                    screen_height: 720,
                    renderer_devices: setup.devices,
                    debug_messenger: setup.debug,
                },
            ),
        }
    }

    pub fn get_devices(&self) -> (r: &Vec<LiquidRendererDevices>)
        ensures
            r@ == self.devices(),
    {
        &self.renderer_devices
    }

    /// The screen width and height.
    pub fn get_render_screen_size(&self) -> (r: (u32, u32))
        ensures
            r == self.screen_size(),
    {
        (self.screen_width, self.screen_height)
    }

    /// The order in which the GPU objects are destroyed: the exact reverse of
    /// their creation, the device first and the entry loader last.
    pub fn teardown_order(&self) -> (r: Vec<VulkanObject>)
        ensures
            r@ == creation_order(self.has_debug_messenger()).reverse(),
    {
        let r = VulkanSetup::release_order(self.debug_messenger, VulkanStep::Complete);
        r
    }

    /// Draws into no window surface yet: attaching changes nothing.
    pub fn attach_renderer_to_window(&self, _liquid_window: &LiquidWindow) {
    }
}

/// With no physical device enumerated, construction fails with
/// `NoPhysicalDevice`; what it releases is the instance (and, in debug builds,
/// the debug messenger before it) and then the entry loader, never a logical
/// device that was not made; and nothing stays alive afterwards.
pub proof fn lemma_no_device_fails_cleanly(debug: bool, outcome: &StepOutcome)
    requires
        (outcome matches StepOutcome::Devices(d) && d@.len() == 0) || outcome is Done,
    ensures
        !step_succeeds(VulkanStep::EnumerateDevices, outcome),
        failure_kind(VulkanStep::EnumerateDevices, outcome) == LiquidErrorKind::NoPhysicalDevice,
        acquired_before(debug, VulkanStep::EnumerateDevices).reverse() == (if debug {
            seq![VulkanObject::DebugMessenger, VulkanObject::Instance, VulkanObject::Entry]
        } else {
            seq![VulkanObject::Instance, VulkanObject::Entry]
        }),
        !acquired_before(debug, VulkanStep::EnumerateDevices).reverse().contains(
            VulkanObject::Device,
        ),
        acquired_before(debug, VulkanStep::Failed).len() == 0,
        failure_message(VulkanStep::EnumerateDevices, outcome)
            == "Unable to find any graphical devices"@,
{
    let rel = acquired_before(debug, VulkanStep::EnumerateDevices).reverse();
    if debug {
        assert(rel =~= seq![VulkanObject::DebugMessenger, VulkanObject::Instance, VulkanObject::Entry]);
    } else {
        assert(rel =~= seq![VulkanObject::Instance, VulkanObject::Entry]);
    }
    assert(forall|i: int| 0 <= i < rel.len() ==> rel[i] != VulkanObject::Device);
}

/// The platform whose surface extension the instance enables.
#[derive(Clone, Copy, Debug, PartialEq, Eq, Structural)]
pub enum TargetPlatform {
    Windows,
    MacOs,
    Linux,
}

/// The instance extensions: the surface baseline, the one surface extension of
/// the platform, and debug utilities in debug builds.
pub open spec fn instance_extension_names(debug: bool, platform: TargetPlatform) -> Seq<Seq<char>> {
    let platform_surface = match platform {
        TargetPlatform::Windows => "VK_KHR_win32_surface"@,
        TargetPlatform::MacOs => "VK_EXT_metal_surface"@,
        TargetPlatform::Linux => "VK_KHR_xcb_surface"@,
    };
    if debug {
        seq!["VK_KHR_surface"@, "VK_EXT_debug_utils"@, platform_surface]
    } else {
        seq!["VK_KHR_surface"@, platform_surface]
    }
}

/// The instance layers: validation in debug builds, none otherwise.
pub open spec fn instance_layer_names(debug: bool) -> Seq<Seq<char>> {
    if debug {
        seq!["VK_LAYER_KHRONOS_validation"@]
    } else {
        Seq::empty()
    }
}

/// The device extensions: the swapchain.
pub open spec fn device_extension_names() -> Seq<Seq<char>> {
    seq!["VK_KHR_swapchain"@]
}

pub open spec fn names_of(v: Seq<String>) -> Seq<Seq<char>> {
    v.map_values(|s: String| s@)
}

pub fn instance_extensions(debug: bool, platform: TargetPlatform) -> (r: Vec<String>)
    ensures
        names_of(r@) == instance_extension_names(debug, platform),
{
    let mut r: Vec<String> = Vec::new();
    r.push(String::from_str("VK_KHR_surface"));
    if debug {
        r.push(String::from_str("VK_EXT_debug_utils"));
    }
    match platform {
        TargetPlatform::Windows => r.push(String::from_str("VK_KHR_win32_surface")),
        TargetPlatform::MacOs => r.push(String::from_str("VK_EXT_metal_surface")),
        TargetPlatform::Linux => r.push(String::from_str("VK_KHR_xcb_surface")),
    }
    proof {
        assert(names_of(r@) =~= instance_extension_names(debug, platform));
    }
    r
}

pub fn instance_layers(debug: bool) -> (r: Vec<String>)
    ensures
        names_of(r@) == instance_layer_names(debug),
{
    let mut r: Vec<String> = Vec::new();
    if debug {
        r.push(String::from_str("VK_LAYER_KHRONOS_validation"));
    }
    proof {
        assert(names_of(r@) =~= instance_layer_names(debug));
    }
    r
}

pub fn device_extensions() -> (r: Vec<String>)
    ensures
        names_of(r@) == device_extension_names(),
{
    let mut r: Vec<String> = Vec::new();
    r.push(String::from_str("VK_KHR_swapchain"));
    proof {
        assert(names_of(r@) =~= device_extension_names());
    }
    r
}

/// One queue request of the logical device.
#[derive(Clone, Copy, Debug, PartialEq, Eq, Structural)]
pub struct QueueRequest {
    pub family_index: u32,
    pub queue_count: u32,
}

/// The logical device asks for one queue of family 0 and one of family 1, at
/// equal priority.
pub fn device_queue_requests() -> (r: Vec<QueueRequest>)
    ensures
        r@ == seq![
            QueueRequest { family_index: 0, queue_count: 1 },
            QueueRequest { family_index: 1, queue_count: 1 },
        ],
{
    let mut r: Vec<QueueRequest> = Vec::new();
    r.push(QueueRequest { family_index: 0, queue_count: 1 });
    r.push(QueueRequest { family_index: 1, queue_count: 1 });
    proof {
        assert(r@ =~= seq![
            QueueRequest { family_index: 0, queue_count: 1 },
            QueueRequest { family_index: 1, queue_count: 1 },
        ]);
    }
    r
}

/// A version word: variant in the top three bits, then major, minor and patch.
pub open spec fn packed_version(variant: u32, major: u32, minor: u32, patch: u32) -> u32 {
    (variant << 29u32) | (major << 22u32) | (minor << 12u32) | patch
}

/// Relies on erupt::vk::make_api_version, which packs a version as
/// `(variant << 29) | (major << 22) | (minor << 12) | patch`.
#[verifier::external_body]
fn make_api_version(variant: u32, major: u32, minor: u32, patch: u32) -> (r: u32)
    ensures
        r == packed_version(variant, major, minor, patch),
{
    erupt::vk::make_api_version(variant, major, minor, patch)
}

/// The application version the instance is created with.
pub fn application_version(create_renderer_info: &LiquidCreateRendererInfo) -> (r: u32)
    ensures
        r == packed_version(
            create_renderer_info.version_variant,
            create_renderer_info.version_major,
            create_renderer_info.version_minor,
            create_renderer_info.version_patch,
        ),
{
    make_api_version(
        create_renderer_info.version_variant,
        create_renderer_info.version_major,
        create_renderer_info.version_minor,
        create_renderer_info.version_patch,
    )
}

/// The text after the last `|` of a driver diagnostic, or all of it where
/// there is none.
pub open spec fn last_segment(s: Seq<char>) -> Seq<char>
    decreases s.len(),
{
    if s.len() == 0 {
        s
    } else if s.last() == '|' {
        Seq::empty()
    } else {
        last_segment(s.drop_last()).push(s.last())
    }
}

proof fn lemma_last_segment(s: Seq<char>, i: int, j: int)
    requires
        0 <= i <= j <= s.len(),
        i == 0 || s[i - 1] == '|',
        forall|k: int| i <= k < j ==> s[k] != '|',
    ensures
        last_segment(s.take(j)) == s.subrange(i, j),
    decreases j - i,
{
    if j == i {
        if i > 0 {
            assert(s.take(i).last() == s[i - 1]);
        }
        assert(s.subrange(i, i) =~= Seq::<char>::empty());
        assert(s.take(0) =~= Seq::<char>::empty());
    } else {
        lemma_last_segment(s, i, j - 1);
        assert(s.take(j).drop_last() =~= s.take(j - 1));
        assert(s.take(j).last() == s[j - 1]);
        assert(s.subrange(i, j) =~= s.subrange(i, j - 1).push(s[j - 1]));
    }
}

/// What the debug messenger logs of a driver diagnostic: nothing for message
/// id 0, which is noise; otherwise the text after the last `|` of the message.
pub fn debug_message_text(message_id_number: i32, message: &str) -> (r: Option<String>)
    ensures
        message_id_number == 0 ==> r is None,
        message_id_number != 0 ==> (r matches Some(t) && t@ == last_segment(message@)),
{
    if message_id_number == 0 {
        return None;
    }
    let len = message.unicode_len();
    let mut i: usize = len;
    while i > 0 && message.get_char(i - 1) != '|'
        invariant
            i <= len,
            len == message@.len(),
            forall|k: int| i <= k < len ==> message@[k] != '|',
        decreases i,
    {
        i = i - 1;
    }
    proof {
        lemma_last_segment(message@, i as int, len as int);
        assert(message@.take(len as int) =~= message@);
    }
    Some(String::from_str(message.substring_char(i, len)))
}

} // verus!
