//! What a task needs before it is created.

#![allow(non_camel_case_types)]

use vstd::prelude::*;

verus! {

/// The code for a task that cannot be created.
pub const ERR_COULD_NOT_ALLOCATE_REQUIRED_MEMORY: i32 = -1;

/// What a task is created with.
#[derive(Debug, PartialEq, Eq)]
pub struct claw_task_config_t {
    pub name: Option<Vec<u8>>,
    pub stack_size: u32,
    pub priority: u32,
    pub core_id: i32,
    pub stack_policy: i32,
}

/// The numbers by which the platform knows stack memory.
#[derive(Clone, Copy, Debug, PartialEq, Eq, Structural)]
pub struct StackMemory {
    /// The policy that allows external memory only.
    pub psram_only: i32,
    /// The capability of external memory.
    pub spiram: u32,
}

/// Whether a configuration names a task that can run.
pub open spec fn task_is_named(config: claw_task_config_t) -> bool {
    &&& config.name matches Some(n) && n@.len() > 0
    &&& config.stack_size > 0
}

/// Whether a task may be created with the memory that its stack would get.
pub open spec fn may_create(config: Option<&claw_task_config_t>, has_function: bool, caps: u32, memory: StackMemory) -> bool {
    config matches Some(c) && task_is_named(*c) && has_function && (c.stack_policy == memory.psram_only ==> caps
        == memory.spiram)
}

/// Whether a task may be created: it has a name, a function and a stack, and the
/// stack's memory is what the policy insists on. Otherwise the code to answer with.
pub fn claw_task_create(
    config: Option<&claw_task_config_t>,
    has_function: bool,
    caps: u32,
    memory: StackMemory,
) -> (r: Result<(), i32>)
    ensures
        r is Ok <==> may_create(config, has_function, caps, memory),
        r matches Err(e) ==> e == ERR_COULD_NOT_ALLOCATE_REQUIRED_MEMORY,
{
    let cfg = match config {
        Some(c) => c,
        None => {
            return Err(ERR_COULD_NOT_ALLOCATE_REQUIRED_MEMORY);
        },
    };
    let named = match &cfg.name {
        Some(n) => n.len() > 0,
        None => false,
    };
    if !named || !has_function || cfg.stack_size == 0 {
        return Err(ERR_COULD_NOT_ALLOCATE_REQUIRED_MEMORY);
    }
    if cfg.stack_policy == memory.psram_only && caps != memory.spiram {
        return Err(ERR_COULD_NOT_ALLOCATE_REQUIRED_MEMORY);
    }
    Ok(())
}

/// A task is made only where it has a name, a stack and something to do; one whose stack
/// must lie in external memory only where that is where it would lie.
pub proof fn law_task_needs_name_stack_and_work(config: claw_task_config_t, has_function: bool, caps: u32, memory: StackMemory)
    ensures
        may_create(Some(&config), has_function, caps, memory) ==> {
            &&& config.name is Some
            &&& config.name->Some_0@.len() > 0
            &&& config.stack_size > 0
            &&& has_function
            &&& config.stack_policy == memory.psram_only ==> caps == memory.spiram
        },
        config.name is Some && config.name->Some_0@.len() > 0 && config.stack_size > 0 && has_function && (
        config.stack_policy != memory.psram_only || caps == memory.spiram) ==> may_create(
            Some(&config),
            has_function,
            caps,
            memory,
        ),
        !may_create(None, has_function, caps, memory),
{
}

} // verus!
