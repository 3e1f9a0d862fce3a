//! The binding layout: a deterministic map from the presence of the optional
//! buffers to a dense, zero-based sequence of binding slots.
//!
//! Every shader stage of a pipeline is compiled against the one layout built
//! here, so the slot order below is a contract shared with the shader source
//! text: the roles always appear in the fixed order
//! [Uniform?, Scratchpad?, Input, Staging], renumbered densely from zero.

use vstd::prelude::*;

verus! {

/// The logical buffers a pipeline works with. The first four can occupy a
/// binding slot; `Output` is never bound to a shader, it is only the copy
/// target the host maps for reading.
#[derive(Clone, Copy, Debug, PartialEq, Eq, Structural)]
pub enum BufferRole {
    /// Host-writable, shader-readable parameter block; present only when the
    /// uniform byte size is non-zero.
    Uniform,
    /// Shader-read-write buffer carrying intermediate state across stages;
    /// present only when a scratchpad size was requested.
    Scratchpad,
    /// Host-written buffer the shaders read their input from; always present.
    Input,
    /// Shader-written buffer holding the result on the device side; always
    /// present.
    Staging,
    /// Host-readable copy target, filled from `Staging`; the only buffer the
    /// host ever maps.
    Output,
}

/// How a shader may access a bound buffer.
#[derive(Clone, Copy, Debug, PartialEq, Eq, Structural)]
pub enum BindingAccess {
    /// A uniform buffer: read-only parameter data.
    UniformData,
    /// A storage buffer the shader may only read.
    StorageReadOnly,
    /// A storage buffer the shader may read and write.
    StorageReadWrite,
}

/// One entry of the binding layout: a dense slot index, the role bound at
/// that index, and the access the shaders get to it.
#[derive(Clone, Copy, Debug, PartialEq, Eq, Structural)]
pub struct BindingSlot {
    pub binding: u32,
    pub role: BufferRole,
    pub access: BindingAccess,
}

/// The usage-flag contract of one buffer role, as plain booleans; the backend
/// wrapper translates each flag into the corresponding device usage bit.
#[derive(Clone, Copy, Debug, PartialEq, Eq, Structural)]
pub struct UsageFlags {
    /// The buffer can be the source of a buffer-to-buffer copy.
    pub copy_src: bool,
    /// The buffer can be written from the host (queued writes, copy target).
    pub copy_dst: bool,
    /// The buffer can be bound as a uniform buffer.
    pub uniform: bool,
    /// The buffer can be bound as a storage buffer.
    pub storage: bool,
    /// The host can map the buffer for reading.
    pub map_read: bool,
}

/// The byte sizes of the three typed transfers of a pipeline, fixed at
/// construction. Input, uniform and output values are plain fixed-layout
/// byte blobs; the schema carries their sizes so the buffers can be
/// allocated and every host transfer checked against them.
#[derive(Clone, Copy, Debug, PartialEq, Eq, Structural)]
pub struct TransferSchema {
    /// Byte size of the uniform value; zero means the pipeline has no
    /// uniform buffer at all.
    pub uniform_bytes: usize,
    /// Byte size of one input value; rewritten at the start of every run.
    pub input_bytes: usize,
    /// Byte size of one output value; the staging and output buffers are
    /// both this large.
    pub output_bytes: usize,
}

impl TransferSchema {
    /// The device moves buffer data in four-byte units, so every transfer
    /// size must be a multiple of four, and the always-present input and
    /// output buffers cannot be empty.
    pub open spec fn wf(self) -> bool {
        &&& self.input_bytes > 0
        &&& self.input_bytes % 4 == 0
        &&& self.output_bytes > 0
        &&& self.output_bytes % 4 == 0
        &&& self.uniform_bytes % 4 == 0
    }
}

/// The access every role grants to the shaders that bind it. `Output` is
/// never bound; its entry is the access it would need (read-only) and is
/// unused by the layout builder.
pub open spec fn spec_access_for_role(role: BufferRole) -> BindingAccess {
    match role {
        BufferRole::Uniform => BindingAccess::UniformData,
        BufferRole::Scratchpad => BindingAccess::StorageReadWrite,
        BufferRole::Input => BindingAccess::StorageReadOnly,
        BufferRole::Staging => BindingAccess::StorageReadWrite,
        BufferRole::Output => BindingAccess::StorageReadOnly,
    }
}

/// The fixed usage-flag set of each buffer role.
pub open spec fn spec_usage_for_role(role: BufferRole) -> UsageFlags {
    match role {
        BufferRole::Uniform => UsageFlags {
            copy_src: false,
            copy_dst: true,
            uniform: true,
            storage: false,
            map_read: false,
        },
        BufferRole::Scratchpad => UsageFlags {
            copy_src: true,
            copy_dst: false,
            uniform: false,
            storage: true,
            map_read: false,
        },
        BufferRole::Input => UsageFlags {
            copy_src: false,
            copy_dst: true,
            uniform: false,
            storage: true,
            map_read: false,
        },
        BufferRole::Staging => UsageFlags {
            copy_src: true,
            copy_dst: false,
            uniform: false,
            storage: true,
            map_read: false,
        },
        BufferRole::Output => UsageFlags {
            copy_src: false,
            copy_dst: true,
            uniform: false,
            storage: false,
            map_read: true,
        },
    }
}

/// The roles that occupy binding slots, in their fixed order, for one
/// combination of presence flags.
pub open spec fn spec_present_roles(uniform_present: bool, scratchpad_present: bool) -> Seq<
    BufferRole,
> {
    if uniform_present && scratchpad_present {
        seq![BufferRole::Uniform, BufferRole::Scratchpad, BufferRole::Input, BufferRole::Staging]
    } else if uniform_present {
        seq![BufferRole::Uniform, BufferRole::Input, BufferRole::Staging]
    } else if scratchpad_present {
        seq![BufferRole::Scratchpad, BufferRole::Input, BufferRole::Staging]
    } else {
        seq![BufferRole::Input, BufferRole::Staging]
    }
}

/// The slot index of the input buffer: one slot per optional buffer that
/// precedes it.
pub open spec fn spec_input_slot(uniform_present: bool, scratchpad_present: bool) -> int {
    (if uniform_present {
        1int
    } else {
        0int
    }) + (if scratchpad_present {
        1int
    } else {
        0int
    })
}

/// The slot index of the staging buffer: always directly after the input
/// buffer.
pub open spec fn spec_staging_slot(uniform_present: bool, scratchpad_present: bool) -> int {
    spec_input_slot(uniform_present, scratchpad_present) + 1
}

/// The full binding layout for one combination of presence flags: the present
/// roles, densely renumbered from zero, each with its access.
pub open spec fn spec_binding_slots(uniform_present: bool, scratchpad_present: bool) -> Seq<
    BindingSlot,
> {
    Seq::new(
        spec_present_roles(uniform_present, scratchpad_present).len(),
        |i: int|
            BindingSlot {
                binding: i as u32,
                role: spec_present_roles(uniform_present, scratchpad_present)[i],
                access: spec_access_for_role(
                    spec_present_roles(uniform_present, scratchpad_present)[i],
                ),
            },
    )
}

/// Executable counterpart of `spec_access_for_role`.
pub fn access_for_role(role: BufferRole) -> (access: BindingAccess)
    ensures
        access == spec_access_for_role(role),
{
    match role {
        BufferRole::Uniform => BindingAccess::UniformData,
        BufferRole::Scratchpad => BindingAccess::StorageReadWrite,
        BufferRole::Input => BindingAccess::StorageReadOnly,
        BufferRole::Staging => BindingAccess::StorageReadWrite,
        BufferRole::Output => BindingAccess::StorageReadOnly,
    }
}

/// Executable counterpart of `spec_usage_for_role`.
pub fn usage_for_role(role: BufferRole) -> (usage: UsageFlags)
    ensures
        usage == spec_usage_for_role(role),
{
    match role {
        BufferRole::Uniform => UsageFlags {
            copy_src: false,
            copy_dst: true,
            uniform: true,
            storage: false,
            map_read: false,
        },
        BufferRole::Scratchpad => UsageFlags {
            copy_src: true,
            copy_dst: false,
            uniform: false,
            storage: true,
            map_read: false,
        },
        BufferRole::Input => UsageFlags {
            copy_src: false,
            copy_dst: true,
            uniform: false,
            storage: true,
            map_read: false,
        },
        BufferRole::Staging => UsageFlags {
            copy_src: true,
            copy_dst: false,
            uniform: false,
            storage: true,
            map_read: false,
        },
        BufferRole::Output => UsageFlags {
            copy_src: false,
            copy_dst: true,
            uniform: false,
            storage: false,
            map_read: true,
        },
    }
}

/// Build the binding layout for one combination of presence flags: iterate
/// the fixed role order [Uniform, Scratchpad, Input, Staging], keep every
/// role that is present, and number the kept slots densely from zero.
pub fn binding_slots(uniform_present: bool, scratchpad_present: bool) -> (slots: Vec<BindingSlot>)
    ensures
        slots@ == spec_binding_slots(uniform_present, scratchpad_present),
{
    let mut slots: Vec<BindingSlot> = Vec::new();
    if uniform_present {
        let binding = slots.len() as u32;
        slots.push(
            BindingSlot {
                binding,
                role: BufferRole::Uniform,
                access: access_for_role(BufferRole::Uniform),
            },
        );
    }
    if scratchpad_present {
        let binding = slots.len() as u32;
        slots.push(
            BindingSlot {
                binding,
                role: BufferRole::Scratchpad,
                access: access_for_role(BufferRole::Scratchpad),
            },
        );
    }
    let binding = slots.len() as u32;
    slots.push(
        BindingSlot { binding, role: BufferRole::Input, access: access_for_role(BufferRole::Input) },
    );
    let binding = slots.len() as u32;
    slots.push(
        BindingSlot {
            binding,
            role: BufferRole::Staging,
            access: access_for_role(BufferRole::Staging),
        },
    );
    proof {
        assert(slots@ =~= spec_binding_slots(uniform_present, scratchpad_present));
    }
    slots
}

/// Binding order determinism: for every combination of presence flags the
/// layout holds the present roles in the fixed order, its slot indices are
/// dense and zero-based, the optional roles sit in front exactly when
/// present, and the input and staging slots are always adjacent, so changing
/// only the presence of an optional buffer never alters the relationship
/// between the input slot and the staging slot.
pub proof fn lemma_binding_order_deterministic(uniform_present: bool, scratchpad_present: bool)
    ensures
        spec_binding_slots(uniform_present, scratchpad_present).len() == 2 + spec_input_slot(
            uniform_present,
            scratchpad_present,
        ),
        forall|i: int|
            0 <= i < spec_binding_slots(uniform_present, scratchpad_present).len()
                ==> #[trigger] spec_binding_slots(uniform_present, scratchpad_present)[i].binding
                == i as u32,
        forall|i: int|
            0 <= i < spec_binding_slots(uniform_present, scratchpad_present).len()
                ==> #[trigger] spec_binding_slots(uniform_present, scratchpad_present)[i].access
                == spec_access_for_role(
                spec_binding_slots(uniform_present, scratchpad_present)[i].role,
            ),
        uniform_present <==> spec_present_roles(uniform_present, scratchpad_present).contains(
            BufferRole::Uniform,
        ),
        scratchpad_present <==> spec_present_roles(uniform_present, scratchpad_present).contains(
            BufferRole::Scratchpad,
        ),
        uniform_present ==> spec_present_roles(uniform_present, scratchpad_present)[0]
            == BufferRole::Uniform,
        spec_present_roles(uniform_present, scratchpad_present)[spec_input_slot(
            uniform_present,
            scratchpad_present,
        )] == BufferRole::Input,
        spec_present_roles(uniform_present, scratchpad_present)[spec_staging_slot(
            uniform_present,
            scratchpad_present,
        )] == BufferRole::Staging,
        spec_staging_slot(uniform_present, scratchpad_present) == spec_input_slot(
            uniform_present,
            scratchpad_present,
        ) + 1,
{
    let roles = spec_present_roles(uniform_present, scratchpad_present);
    if uniform_present {
        assert(roles.contains(BufferRole::Uniform)) by {
            assert(roles[0] == BufferRole::Uniform);
        }
    } else {
        assert(forall|i: int| 0 <= i < roles.len() ==> roles[i] != BufferRole::Uniform);
    }
    if scratchpad_present {
        let at = if uniform_present {
            1int
        } else {
            0int
        };
        assert(roles.contains(BufferRole::Scratchpad)) by {
            assert(roles[at] == BufferRole::Scratchpad);
        }
    } else {
        assert(forall|i: int| 0 <= i < roles.len() ==> roles[i] != BufferRole::Scratchpad);
    }
}

} // verus!
