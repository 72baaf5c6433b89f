//! The frame-acquisition state machine: binds to one display, fixes the
//! acquisition strategy (fastlane versus slow path) at construction, and
//! repeatedly maps the next desktop frame while keeping the backend's
//! single-outstanding-frame and map/unmap ordering discipline.
//!
//! Each backend response is handed in as plain values; each step reports the
//! deferred [`Action`] calls the embedding program owes the backend.

use vstd::prelude::*;
use crate::backend::Action;
use crate::display::Display;
use crate::status::CaptureError;
use crate::status::S_OK;
use crate::status::error_of;
use crate::status::failed;
use crate::status::translate_spec;
use crate::status::wrap_hresult;

verus! {

/// The backend's usage code for a CPU-staging resource.
pub const D3D11_USAGE_STAGING: u32 = 3;

/// The backend's flag enabling CPU read access on a resource (0x20000).
pub const D3D11_CPU_ACCESS_READ: u32 = 131072;

/// The backend's highest residency priority (0xC8000000): a resource so
/// marked is evicted last under memory pressure.
pub const DXGI_RESOURCE_PRIORITY_MAXIMUM: u32 = 3355443200;

/// The backend's flag requesting read access when mapping a surface.
pub const DXGI_MAP_READ: u32 = 1;

/// Format and dimension descriptor of a 2D texture resource.
#[derive(Clone, Copy, PartialEq, Eq, Structural, Debug)]
pub struct TextureDesc {
    /// Texture width in pixels.
    pub width: u32,
    /// Texture height in pixels.
    pub height: u32,
    /// Number of mipmap levels.
    pub mip_levels: u32,
    /// Number of textures in the array.
    pub array_size: u32,
    /// Pixel format code.
    pub format: u32,
    /// Multisample count.
    pub sample_count: u32,
    /// Multisample quality level.
    pub sample_quality: u32,
    /// Usage code.
    pub usage: u32,
    /// Pipeline bind flags.
    pub bind_flags: u32,
    /// CPU access flags.
    pub cpu_access_flags: u32,
    /// Miscellaneous flags.
    pub misc_flags: u32,
}

/// The staging variant of a frame texture's descriptor: same format and
/// dimensions, CPU-staging usage, no bind flags, CPU read access enabled,
/// no extra flags.
pub open spec fn staging_desc_spec(d: TextureDesc) -> TextureDesc {
    TextureDesc {
        usage: D3D11_USAGE_STAGING,
        bind_flags: 0,
        cpu_access_flags: D3D11_CPU_ACCESS_READ,
        misc_flags: 0,
        ..d
    }
}

/// Derives the descriptor of the staging resource a frame is copied into.
pub fn staging_desc(d: &TextureDesc) -> (r: TextureDesc)
    ensures
        r == staging_desc_spec(*d),
{
    TextureDesc {
        usage: D3D11_USAGE_STAGING,
        bind_flags: 0,
        cpu_access_flags: D3D11_CPU_ACCESS_READ,
        misc_flags: 0,
        ..*d
    }
}

/// Where a Capturer stands in the frame-acquisition protocol.
#[derive(Clone, Copy, PartialEq, Eq, Structural, Debug)]
pub enum Phase {
    /// No acquisition in progress; a frame call may start.
    Idle,
    /// Awaiting the result of acquiring the next frame from the session.
    Acquiring,
    /// Fastlane: awaiting the result of mapping the desktop surface; the
    /// acquired frame object is still to be released.
    MappingDesktop {
        /// The acquired frame object.
        frame: u64,
    },
    /// Slow path: awaiting the frame's underlying texture and its
    /// descriptor.
    InspectingTexture {
        /// The acquired frame object.
        frame: u64,
    },
    /// Slow path: awaiting the result of creating the staging resource.
    CreatingStaging {
        /// The acquired frame object.
        frame: u64,
        /// The frame's underlying texture.
        texture: u64,
    },
    /// Slow path: awaiting the result of CPU-mapping the staging surface.
    MappingSurface,
}

/// The backend's responses while constructing a Capturer.
#[derive(Clone, Copy, Debug)]
pub struct BootResponses {
    /// Status of creating the device and immediate context against the
    /// display's adapter.
    pub create_status: i32,
    /// The created device.
    pub device: u64,
    /// The created immediate context.
    pub context: u64,
    /// Status of requesting the duplication session from the display's
    /// output, with the device as consumer.
    pub duplicate_status: i32,
    /// The created duplication session.
    pub duplication: u64,
    /// Whether the session descriptor reports the desktop image resident
    /// in system memory.
    pub in_system_memory: bool,
}

/// The backend's responses to one frame load; which fields are read
/// depends on the path the load takes.
#[derive(Clone, Copy, Debug)]
pub struct FrameResponses {
    /// Status of acquiring the next frame within the caller's timeout.
    pub acquire_status: i32,
    /// The acquired frame object.
    pub frame: u64,
    /// Status of the mapping call: of the desktop surface in fastlane
    /// mode, of the staging surface in slow-path mode.
    pub map_status: i32,
    /// Row pitch in bytes reported by the mapping call.
    pub pitch: u32,
    /// The frame's underlying texture (slow path).
    pub texture: u64,
    /// The texture's descriptor (slow path).
    pub texture_desc: TextureDesc,
    /// Status of creating the staging resource (slow path).
    pub create_status: i32,
    /// The staging resource, when the creation call produced one — always
    /// on success, possibly also on a failure that left a partially
    /// created resource behind (slow path).
    pub staging: Option<u64>,
    /// The staging resource's surface view (slow path).
    pub surface: u64,
}

/// A capture session bound to one display. Owns the device, context and
/// duplication session for its whole life; in slow-path mode it holds the
/// staging surface of the current frame between a successful map and the
/// release phase of the next frame call.
#[derive(Clone, Copy, Debug)]
pub struct Capturer {
    /// Backend handle of the device.
    pub device: u64,
    /// Backend handle of the immediate context.
    pub context: u64,
    /// Backend handle of the duplication session.
    pub duplication: u64,
    /// Fixed at construction: true iff the backend reports the desktop
    /// image resident in system memory for this session.
    pub fastlane: bool,
    /// The staging surface currently held; present only in slow-path mode.
    pub surface: Option<u64>,
    /// Byte length of the currently recorded frame view: display height in
    /// pixels times the row pitch reported by the mapping call.
    pub len: usize,
    /// The bound display's height in pixels.
    pub height: usize,
    /// Where the instance stands in the acquisition protocol.
    pub phase: Phase,
}

/// The deferred calls the release phase of a frame call emits: in
/// fastlane mode unmap the desktop surface; in slow-path mode unmap and
/// release the currently held staging surface, if any; then release the
/// outstanding frame at the session level. All best-effort: their status
/// is ignored, the frame content was already consumed by the caller.
pub open spec fn begin_actions(c: Capturer) -> Seq<Action> {
    if c.fastlane {
        seq![Action::UnmapDesktop, Action::ReleaseSessionFrame]
    } else {
        match c.surface {
            Some(s) => seq![
                Action::UnmapSurface { surface: s },
                Action::ReleaseSurface { surface: s },
                Action::ReleaseSessionFrame,
            ],
            None => seq![Action::ReleaseSessionFrame],
        }
    }
}

/// The deferred calls owed at destruction: unmap, then release, any
/// still-mapped staging surface first, then release the duplication
/// session, the device and the context — children before the handles they
/// depend on.
pub open spec fn teardown_actions(c: Capturer) -> Seq<Action> {
    match c.surface {
        Some(s) => seq![
            Action::UnmapSurface { surface: s },
            Action::ReleaseSurface { surface: s },
            Action::ReleaseDuplication { duplication: c.duplication },
            Action::ReleaseDevice { device: c.device },
            Action::ReleaseContext { context: c.context },
        ],
        None => seq![
            Action::ReleaseDuplication { duplication: c.duplication },
            Action::ReleaseDevice { device: c.device },
            Action::ReleaseContext { context: c.context },
        ],
    }
}

/// Whether one frame load succeeds against the given responses.
pub open spec fn load_ok_spec(c: Capturer, b: FrameResponses) -> bool {
    &&& !failed(translate_spec(b.acquire_status))
    &&& (!c.fastlane ==> !failed(translate_spec(b.create_status)))
    &&& !failed(translate_spec(b.map_status))
}

/// The error a failing frame load surfaces: the first failing step's,
/// translated.
pub open spec fn load_err_spec(c: Capturer, b: FrameResponses) -> CaptureError {
    if failed(translate_spec(b.acquire_status)) {
        error_of(translate_spec(b.acquire_status))
    } else if c.fastlane {
        error_of(translate_spec(b.map_status))
    } else if failed(translate_spec(b.create_status)) {
        error_of(translate_spec(b.create_status))
    } else {
        error_of(translate_spec(b.map_status))
    }
}

/// The deferred calls one frame load emits.
pub open spec fn load_actions_spec(c: Capturer, b: FrameResponses) -> Seq<Action> {
    if failed(translate_spec(b.acquire_status)) {
        Seq::empty()
    } else if c.fastlane {
        seq![Action::ReleaseFrame { frame: b.frame }]
    } else if failed(translate_spec(b.create_status)) {
        match b.staging {
            Some(s) => seq![
                Action::ReleaseFrame { frame: b.frame },
                Action::ReleaseTexture { texture: b.texture },
                Action::ReleaseStaging { staging: s },
            ],
            None => seq![
                Action::ReleaseFrame { frame: b.frame },
                Action::ReleaseTexture { texture: b.texture },
            ],
        }
    } else {
        match b.staging {
            Some(s) => seq![
                Action::SetEvictionPriority { staging: s },
                Action::CopyToStaging { staging: s, texture: b.texture },
                Action::ReleaseFrame { frame: b.frame },
                Action::ReleaseTexture { texture: b.texture },
                Action::ReleaseStaging { staging: s },
            ],
            // A successful creation always carries its resource; the load
            // protocol never reaches this arm.
            None => Seq::empty(),
        }
    }
}

/// The staging surface held after one frame load.
pub open spec fn load_surface_spec(c: Capturer, b: FrameResponses) -> Option<u64> {
    if c.fastlane {
        None
    } else if failed(translate_spec(b.acquire_status)) {
        None
    } else if failed(translate_spec(b.create_status)) {
        None
    } else {
        Some(b.surface)
    }
}

impl Capturer {
    /// The instance's invariant: in fastlane mode no staging surface is
    /// ever held, and mid-protocol the surface reference matches the
    /// phase: none while a slow-path load is still creating its staging
    /// resource, one exactly while its mapping is awaited.
    pub open spec fn wf(self) -> bool {
        &&& (self.fastlane ==> self.surface is None)
        &&& (self.phase is MappingSurface ==> self.surface is Some && !self.fastlane)
        &&& (self.phase is MappingDesktop ==> self.fastlane)
        &&& (self.phase is InspectingTexture ==> !self.fastlane && self.surface is None)
        &&& (self.phase is CreatingStaging ==> !self.fastlane && self.surface is None)
        &&& (self.phase is Acquiring ==> self.surface is None)
    }

    /// Binds to one display. Creating the device and context against the
    /// display's adapter fails with the generic `Other` error and nothing
    /// to roll back; on a failed duplication-session request the device
    /// and context are released before the translated error propagates, so
    /// no partial state survives a failed construction. On success the
    /// fastlane flag is fixed from the session descriptor and the instance
    /// awaits its initial zero-timeout frame load, whose outcome
    /// construction ignores.
    pub fn new(display: &Display, boot: &BootResponses) -> (r: (
        Vec<Action>,
        Result<Capturer, CaptureError>,
    ))
        requires
            display.wf(),
        ensures
            boot.create_status != S_OK ==> {
                &&& r.1 == Err::<Capturer, CaptureError>(CaptureError::Other)
                &&& r.0@.len() == 0
            },
            boot.create_status == S_OK && failed(translate_spec(boot.duplicate_status)) ==> {
                &&& r.1 == Err::<Capturer, CaptureError>(
                    error_of(translate_spec(boot.duplicate_status)),
                )
                &&& r.0@.len() == 2
                &&& r.0@[0] == (Action::ReleaseDevice { device: boot.device })
                &&& r.0@[1] == (Action::ReleaseContext { context: boot.context })
            },
            boot.create_status == S_OK && !failed(translate_spec(boot.duplicate_status)) ==> {
                &&& r.0@.len() == 0
                &&& r.1 == Ok::<Capturer, CaptureError>(
                    Capturer {
                        device: boot.device,
                        context: boot.context,
                        duplication: boot.duplication,
                        fastlane: boot.in_system_memory,
                        surface: None,
                        len: 0,
                        height: (display.desc.bottom - display.desc.top) as usize,
                        phase: Phase::Acquiring,
                    },
                )
            },
            r.1 matches Ok(c) ==> c.wf(),
    {
        if boot.create_status != S_OK {
            return (Vec::new(), Err(CaptureError::Other));
        }
        match wrap_hresult(boot.duplicate_status) {
            Err(e) => {
                let mut acts: Vec<Action> = Vec::new();
                acts.push(Action::ReleaseDevice { device: boot.device });
                acts.push(Action::ReleaseContext { context: boot.context });
                (acts, Err(e))
            },
            Ok(_) => {
                let h = display.height();
                (
                    Vec::new(),
                    Ok(
                        Capturer {
                            device: boot.device,
                            context: boot.context,
                            duplication: boot.duplication,
                            fastlane: boot.in_system_memory,
                            surface: None,
                            len: 0,
                            height: h as usize,
                            phase: Phase::Acquiring,
                        },
                    ),
                )
            },
        }
    }

    /// Starts a frame call: clears whatever the previous call mapped and
    /// releases the previous frame at the session level, before the next
    /// acquisition — required by the backend's single-outstanding-frame
    /// contract. The emitted releases are best-effort; their status is
    /// intentionally ignored.
    pub fn begin_frame(&mut self) -> (r: Vec<Action>)
        requires
            old(self).wf(),
            old(self).phase is Idle,
        ensures
            final(self).wf(),
            *final(self) == (Capturer { surface: None, phase: Phase::Acquiring, ..*old(self) }),
            r@ == begin_actions(*old(self)),
    {
        let mut acts: Vec<Action> = Vec::new();
        if self.fastlane {
            acts.push(Action::UnmapDesktop);
        } else {
            match self.surface {
                Some(s) => {
                    acts.push(Action::UnmapSurface { surface: s });
                    acts.push(Action::ReleaseSurface { surface: s });
                    self.surface = None;
                },
                None => {},
            }
        }
        acts.push(Action::ReleaseSessionFrame);
        self.phase = Phase::Acquiring;
        proof {
            assert(acts@ =~= begin_actions(*old(self)));
        }
        acts
    }

    /// Feeds in the result of acquiring the next frame from the session
    /// with the caller's timeout. A failure — `TimedOut` when no new frame
    /// arrived within the window — aborts the load with the translated
    /// error, leaving the recorded length untouched; on success the load
    /// proceeds on the path fixed at construction.
    pub fn on_acquire(&mut self, status: i32, frame: u64) -> (r: Result<(), CaptureError>)
        requires
            old(self).wf(),
            old(self).phase is Acquiring,
        ensures
            final(self).wf(),
            *final(self) == (Capturer { phase: final(self).phase, ..*old(self) }),
            failed(translate_spec(status)) ==> r == Err::<(), CaptureError>(
                error_of(translate_spec(status)),
            ) && final(self).phase is Idle,
            !failed(translate_spec(status)) ==> r == Ok::<(), CaptureError>(()) && final(self).phase == (if old(self).fastlane {
                Phase::MappingDesktop { frame }
            } else {
                Phase::InspectingTexture { frame }
            }),
    {
        match wrap_hresult(status) {
            Err(e) => {
                self.phase = Phase::Idle;
                Err(e)
            },
            Ok(_) => {
                if self.fastlane {
                    self.phase = Phase::MappingDesktop { frame };
                } else {
                    self.phase = Phase::InspectingTexture { frame };
                }
                Ok(())
            },
        }
    }

    /// Feeds in the result of mapping the whole desktop surface (fastlane
    /// path; no new resource is created). The just-acquired frame object
    /// is released either way, since it is not needed once the desktop
    /// surface is mapped. On success the recorded length becomes height
    /// times the reported row pitch; on failure the translated error
    /// propagates and the length is untouched.
    pub fn on_desktop_map(&mut self, status: i32, pitch: u32) -> (r: (
        Vec<Action>,
        Result<(), CaptureError>,
    ))
        requires
            old(self).wf(),
            old(self).phase is MappingDesktop,
            old(self).height * pitch <= usize::MAX,
        ensures
            final(self).wf(),
            final(self).phase is Idle,
            *final(self) == (Capturer {
                phase: Phase::Idle,
                len: final(self).len,
                ..*old(self)
            }),
            old(self).phase matches Phase::MappingDesktop { frame } ==> r.0@ == seq![
                Action::ReleaseFrame { frame },
            ],
            failed(translate_spec(status)) ==> r.1 == Err::<(), CaptureError>(
                error_of(translate_spec(status)),
            ) && final(self).len == old(self).len,
            !failed(translate_spec(status)) ==> r.1 == Ok::<(), CaptureError>(()) && final(self).len == old(self).height * pitch,
    {
        let f = match self.phase {
            Phase::MappingDesktop { frame } => frame,
            _ => {
                assert(false);
                0
            },
        };
        let mut acts: Vec<Action> = Vec::new();
        acts.push(Action::ReleaseFrame { frame: f });
        self.phase = Phase::Idle;
        proof {
            assert(acts@ =~= seq![Action::ReleaseFrame { frame: f }]);
        }
        match wrap_hresult(status) {
            Err(e) => (acts, Err(e)),
            Ok(_) => {
                self.len = self.height * (pitch as usize);
                (acts, Ok(()))
            },
        }
    }

    /// Feeds in the frame's underlying texture, obtained by capability
    /// query, and its descriptor (slow path). Returns the descriptor to
    /// create the staging resource from: CPU-staging usage, no bind flags,
    /// CPU read access enabled, no extra flags.
    pub fn on_texture(&mut self, texture: u64, desc: &TextureDesc) -> (r: TextureDesc)
        requires
            old(self).wf(),
            old(self).phase is InspectingTexture,
        ensures
            final(self).wf(),
            *final(self) == (Capturer { phase: final(self).phase, ..*old(self) }),
            r == staging_desc_spec(*desc),
            old(self).phase matches Phase::InspectingTexture { frame } ==> final(self).phase == (
            Phase::CreatingStaging { frame, texture }),
    {
        let f = match self.phase {
            Phase::InspectingTexture { frame } => frame,
            _ => {
                assert(false);
                0
            },
        };
        self.phase = Phase::CreatingStaging { frame: f, texture };
        staging_desc(desc)
    }

    /// Feeds in the result of creating the staging resource, together
    /// with its surface view obtained by capability query (slow path).
    /// A successful creation always hands its resource in. On creation
    /// failure the acquired frame, the source texture and — only if one
    /// was partially created — the staging resource are released before
    /// the translated error propagates. On success the staging resource is
    /// pinned at lowest eviction priority, the GPU-side copy from the
    /// source texture is issued, the temporary references are released —
    /// the copy is synchronous with respect to the CPU mapping that
    /// follows — and the surface reference is retained so the next frame
    /// call can unmap and release it.
    pub fn on_staging_created(&mut self, status: i32, staging: Option<u64>, surface: u64) -> (r: (
        Vec<Action>,
        Result<(), CaptureError>,
    ))
        requires
            old(self).wf(),
            old(self).phase is CreatingStaging,
            !failed(translate_spec(status)) ==> staging is Some,
        ensures
            final(self).wf(),
            final(self).len == old(self).len,
            final(self).device == old(self).device,
            final(self).context == old(self).context,
            final(self).duplication == old(self).duplication,
            final(self).fastlane == old(self).fastlane,
            final(self).height == old(self).height,
            old(self).phase matches Phase::CreatingStaging { frame, texture } ==> {
                &&& failed(translate_spec(status)) ==> {
                    &&& r.1 == Err::<(), CaptureError>(error_of(translate_spec(status)))
                    &&& final(self).phase is Idle
                    &&& final(self).surface is None
                    &&& r.0@ == (match staging {
                        Some(s) => seq![
                            Action::ReleaseFrame { frame },
                            Action::ReleaseTexture { texture },
                            Action::ReleaseStaging { staging: s },
                        ],
                        None => seq![
                            Action::ReleaseFrame { frame },
                            Action::ReleaseTexture { texture },
                        ],
                    })
                }
                &&& !failed(translate_spec(status)) ==> {
                    &&& r.1 == Ok::<(), CaptureError>(())
                    &&& final(self).phase is MappingSurface
                    &&& final(self).surface == Some(surface)
                    &&& staging matches Some(s) && r.0@ == seq![
                        Action::SetEvictionPriority { staging: s },
                        Action::CopyToStaging { staging: s, texture },
                        Action::ReleaseFrame { frame },
                        Action::ReleaseTexture { texture },
                        Action::ReleaseStaging { staging: s },
                    ]
                }
            },
    {
        let (f, t) = match self.phase {
            Phase::CreatingStaging { frame, texture } => (frame, texture),
            _ => {
                assert(false);
                (0, 0)
            },
        };
        match wrap_hresult(status) {
            Err(e) => {
                let mut acts: Vec<Action> = Vec::new();
                acts.push(Action::ReleaseFrame { frame: f });
                acts.push(Action::ReleaseTexture { texture: t });
                match staging {
                    Some(s) => {
                        acts.push(Action::ReleaseStaging { staging: s });
                        proof {
                            assert(acts@ =~= seq![
                                Action::ReleaseFrame { frame: f },
                                Action::ReleaseTexture { texture: t },
                                Action::ReleaseStaging { staging: s },
                            ]);
                        }
                    },
                    None => {
                        proof {
                            assert(acts@ =~= seq![
                                Action::ReleaseFrame { frame: f },
                                Action::ReleaseTexture { texture: t },
                            ]);
                        }
                    },
                }
                self.phase = Phase::Idle;
                (acts, Err(e))
            },
            Ok(_) => {
                let s = match staging {
                    Some(s) => s,
                    None => {
                        assert(false);
                        0
                    },
                };
                let mut acts: Vec<Action> = Vec::new();
                acts.push(Action::SetEvictionPriority { staging: s });
                acts.push(Action::CopyToStaging { staging: s, texture: t });
                acts.push(Action::ReleaseFrame { frame: f });
                acts.push(Action::ReleaseTexture { texture: t });
                acts.push(Action::ReleaseStaging { staging: s });
                self.surface = Some(surface);
                self.phase = Phase::MappingSurface;
                proof {
                    assert(acts@ =~= seq![
                        Action::SetEvictionPriority { staging: s },
                        Action::CopyToStaging { staging: s, texture: t },
                        Action::ReleaseFrame { frame: f },
                        Action::ReleaseTexture { texture: t },
                        Action::ReleaseStaging { staging: s },
                    ]);
                }
                (acts, Ok(()))
            },
        }
    }

    /// Feeds in the result of CPU-mapping the staging surface for reading
    /// (slow path). On success the reported row pitch fixes the recorded
    /// length at height times pitch; on failure the translated error
    /// propagates and the length is untouched. The surface reference is
    /// retained either way, so the next frame call or destruction unmaps
    /// and releases it.
    pub fn on_surface_map(&mut self, status: i32, pitch: u32) -> (r: Result<(), CaptureError>)
        requires
            old(self).wf(),
            old(self).phase is MappingSurface,
            old(self).height * pitch <= usize::MAX,
        ensures
            final(self).wf(),
            final(self).phase is Idle,
            *final(self) == (Capturer {
                phase: Phase::Idle,
                len: final(self).len,
                ..*old(self)
            }),
            failed(translate_spec(status)) ==> r == Err::<(), CaptureError>(
                error_of(translate_spec(status)),
            ) && final(self).len == old(self).len,
            !failed(translate_spec(status)) ==> r == Ok::<(), CaptureError>(()) && final(self).len == old(self).height * pitch,
    {
        self.phase = Phase::Idle;
        match wrap_hresult(status) {
            Err(e) => Err(e),
            Ok(_) => {
                self.len = self.height * (pitch as usize);
                Ok(())
            },
        }
    }

    /// One frame load against recorded backend responses: acquire with
    /// the caller's timeout, then either map the desktop surface directly
    /// (fastlane) or copy into a freshly created staging resource and map
    /// that (slow path). Exactly the first failing step's translated
    /// error surfaces; on success the recorded length is height times the
    /// reported row pitch.
    pub fn load_frame(&mut self, responses: &FrameResponses) -> (r: (
        Vec<Action>,
        Result<(), CaptureError>,
    ))
        requires
            old(self).wf(),
            old(self).phase is Acquiring,
            old(self).height * responses.pitch <= usize::MAX,
            !old(self).fastlane && !failed(translate_spec(responses.create_status))
                ==> responses.staging is Some,
        ensures
            final(self).wf(),
            final(self).phase is Idle,
            final(self).device == old(self).device,
            final(self).context == old(self).context,
            final(self).duplication == old(self).duplication,
            final(self).fastlane == old(self).fastlane,
            final(self).height == old(self).height,
            final(self).surface == load_surface_spec(*old(self), *responses),
            r.0@ == load_actions_spec(*old(self), *responses),
            load_ok_spec(*old(self), *responses) ==> r.1 == Ok::<(), CaptureError>(()) && final(self).len == old(self).height * responses.pitch,
            !load_ok_spec(*old(self), *responses) ==> r.1 == Err::<(), CaptureError>(
                load_err_spec(*old(self), *responses),
            ) && final(self).len == old(self).len,
    {
        let mut acts: Vec<Action> = Vec::new();
        match self.on_acquire(responses.acquire_status, responses.frame) {
            Err(e) => {
                proof {
                    assert(acts@ =~= load_actions_spec(*old(self), *responses));
                }
                return (acts, Err(e));
            },
            Ok(_) => {},
        }
        if self.fastlane {
            let (mut more, res) = self.on_desktop_map(responses.map_status, responses.pitch);
            acts.append(&mut more);
            proof {
                assert(acts@ =~= load_actions_spec(*old(self), *responses));
            }
            (acts, res)
        } else {
            // The staging descriptor the embedding program would create the
            // resource from; the recorded responses already fix the outcome.
            let _staging_request = self.on_texture(responses.texture, &responses.texture_desc);
            let (mut more, created) = self.on_staging_created(
                responses.create_status,
                responses.staging,
                responses.surface,
            );
            acts.append(&mut more);
            proof {
                assert(acts@ =~= load_actions_spec(*old(self), *responses));
            }
            match created {
                Err(e) => (acts, Err(e)),
                Ok(_) => {
                    let res = self.on_surface_map(responses.map_status, responses.pitch);
                    (acts, res)
                },
            }
        }
    }

    /// The primary operation: releases whatever the previous call mapped
    /// and the previous frame at the session level (best-effort, status
    /// ignored), then loads the next frame with the caller's timeout and,
    /// on success, returns the byte length of the freshly mapped buffer —
    /// the display height times the row pitch reported by the mapping
    /// call. Only the load step's failure surfaces. A failed call — in
    /// particular a zero-timeout call answered `TimedOut` because no new
    /// frame was available — leaves the previously recorded length
    /// untouched; the recorded view is replaced only by the next
    /// successful call.
    pub fn frame(&mut self, _timeout: u32, responses: &FrameResponses) -> (r: (
        Vec<Action>,
        Result<usize, CaptureError>,
    ))
        requires
            old(self).wf(),
            old(self).phase is Idle,
            old(self).height * responses.pitch <= usize::MAX,
            !old(self).fastlane && !failed(translate_spec(responses.create_status))
                ==> responses.staging is Some,
        ensures
            final(self).wf(),
            final(self).phase is Idle,
            final(self).device == old(self).device,
            final(self).context == old(self).context,
            final(self).duplication == old(self).duplication,
            final(self).fastlane == old(self).fastlane,
            final(self).height == old(self).height,
            final(self).surface == load_surface_spec(*old(self), *responses),
            r.0@ == begin_actions(*old(self)) + load_actions_spec(*old(self), *responses),
            load_ok_spec(*old(self), *responses) ==> r.1 == Ok::<usize, CaptureError>(
                final(self).len,
            ) && final(self).len == old(self).height * responses.pitch,
            !load_ok_spec(*old(self), *responses) ==> r.1 == Err::<usize, CaptureError>(
                load_err_spec(*old(self), *responses),
            ) && final(self).len == old(self).len,
            translate_spec(responses.acquire_status) == Err::<(), CaptureError>(
                CaptureError::TimedOut,
            ) ==> r.1 == Err::<usize, CaptureError>(CaptureError::TimedOut) && final(self).len
                == old(self).len,
    {
        let mut acts = self.begin_frame();
        let (mut more, res) = self.load_frame(responses);
        acts.append(&mut more);
        proof {
            assert(acts@ =~= begin_actions(*old(self)) + load_actions_spec(
                *old(self),
                *responses,
            ));
        }
        match res {
            Err(e) => (acts, Err(e)),
            Ok(_) => (acts, Ok(self.len)),
        }
    }

    /// The releases owed at destruction, in [`teardown_actions`] order.
    pub fn release_actions(&self) -> (r: Vec<Action>)
        ensures
            r@ == teardown_actions(*self),
    {
        let mut acts: Vec<Action> = Vec::new();
        match self.surface {
            Some(s) => {
                acts.push(Action::UnmapSurface { surface: s });
                acts.push(Action::ReleaseSurface { surface: s });
            },
            None => {},
        }
        acts.push(Action::ReleaseDuplication { duplication: self.duplication });
        acts.push(Action::ReleaseDevice { device: self.device });
        acts.push(Action::ReleaseContext { context: self.context });
        proof {
            assert(acts@ =~= teardown_actions(*self));
        }
        acts
    }
}

/// Law: across consecutive frame calls in slow-path mode no staging
/// surface leaks — the release phase of the next call unmaps and then
/// releases exactly the surface held from the previous successful call,
/// and touches no other surface.
pub proof fn lemma_no_staging_leak(c: Capturer, s: u64)
    requires
        !c.fastlane,
        c.surface == Some(s),
    ensures
        begin_actions(c).len() == 3,
        begin_actions(c)[0] == (Action::UnmapSurface { surface: s }),
        begin_actions(c)[1] == (Action::ReleaseSurface { surface: s }),
        forall|i: int|
            0 <= i < begin_actions(c).len() ==> ((#[trigger] begin_actions(c)[i]) matches
            Action::UnmapSurface { surface: t } ==> t == s),
        forall|i: int|
            0 <= i < begin_actions(c).len() ==> ((#[trigger] begin_actions(c)[i]) matches
            Action::ReleaseSurface { surface: t } ==> t == s),
{
}

/// Law: on a static desktop — the mapping call succeeding with one fixed
/// pitch, staging creation succeeding where the slow path needs it, and
/// the acquisition answering either a frame, a timeout, or a momentarily
/// unavailable resource — a repeated frame call has exactly two outcomes:
/// it succeeds, and then (by the frame contract) returns height times
/// that pitch, the same non-zero length as the previous successful call;
/// or it surfaces `TimedOut` or `Interrupted`. No other outcome exists.
pub proof fn lemma_static_desktop_dichotomy(c: Capturer, b: FrameResponses)
    requires
        !failed(translate_spec(b.map_status)),
        !c.fastlane ==> !failed(translate_spec(b.create_status)),
        translate_spec(b.acquire_status) == Ok::<(), CaptureError>(()) || translate_spec(
            b.acquire_status,
        ) == Err::<(), CaptureError>(CaptureError::TimedOut) || translate_spec(b.acquire_status)
            == Err::<(), CaptureError>(CaptureError::Interrupted),
    ensures
        load_ok_spec(c, b) || load_err_spec(c, b) == CaptureError::TimedOut || load_err_spec(
            c,
            b,
        ) == CaptureError::Interrupted,
        c.height > 0 && b.pitch > 0 ==> c.height * b.pitch > 0,
{
    if c.height > 0 && b.pitch > 0 {
        assert(c.height * b.pitch > 0) by (nonlinear_arith)
            requires
                c.height > 0,
                b.pitch > 0,
        ;
    }
}

/// Law: destruction after a slow-path mapped frame unmaps the staging
/// surface before releasing it — the teardown sequence never releases a
/// surface it has not unmapped at an earlier position.
pub proof fn lemma_teardown_unmaps_before_release(c: Capturer, s: u64, j: int)
    requires
        0 <= j < teardown_actions(c).len(),
        teardown_actions(c)[j] == (Action::ReleaseSurface { surface: s }),
    ensures
        exists|i: int|
            0 <= i < j && teardown_actions(c)[i] == (Action::UnmapSurface { surface: s }),
{
    match c.surface {
        Some(s0) => {
            assert(teardown_actions(c)[0] == (Action::UnmapSurface { surface: s0 }));
            assert(j == 1 && s == s0);
            assert(0 <= 0 < j && teardown_actions(c)[0] == (Action::UnmapSurface { surface: s }));
        },
        None => {
            assert(false);
        },
    }
}

} // verus!

