//! The hook registry: what the interception callbacks share, and the one call
//! that sets it up.
//!
//! Everything in a [`Global`] is either written once while it is set up and
//! only read afterwards, or changed through atomic operations alone, so a
//! shared reference to it can be handed to every callback.

use crate::console::{Console, Var};
use crate::entity::Entity;
use crate::error::Error;
use crate::hooks::{
    installable, installed_batch_is_refused, patched, recorded, restorable, restored,
    HookRecord, HookRequest, Hooks, TableSlot,
};
use crate::managed::Managed;
use crate::memory::Memory;
use crate::shared::Shared;
use vstd::prelude::*;

verus! {

/// The cell of the client mode's virtual table through which the host builds
/// a movement command.
pub const CREATE_MOVE_SLOT: u64 = 25;

/// The cell of the client's virtual table through which the host announces a
/// frame stage.
pub const FRAME_STAGE_NOTIFY_SLOT: u64 = 37;

/// The cell of the model renderer's virtual table through which the host
/// draws a model.
pub const DRAW_MODEL_EXECUTE_SLOT: u64 = 21;

/// The interfaces of the host that were resolved before attaching, and the
/// values that were read from them once.
#[derive(Clone, Copy, Debug, PartialEq, Eq, Structural)]
pub struct Interfaces {
    pub client: Managed,
    pub client_mode: Managed,
    pub model_render: Managed,
    pub model_info: Managed,
    pub engine: Managed,
    pub entity_list: Managed,
    pub globals: Managed,
    pub input: Managed,
    pub physics: Managed,
    pub tracer: Managed,
    pub console: Console,
    pub flat: Managed,
    pub animation_layers: u32,
    pub animation_state: u32,
    pub cheats: Var,
    pub ffa: Var,
    pub gravity: Var,
    pub infinite_ammo: Var,
    pub lost_focus_sleep: Var,
    pub model_stats_overlay: Var,
    pub panorama_blur: Var,
    pub physics_timescale: Var,
    pub post_processing: Var,
    pub ragdoll_gravity: Var,
    pub show_impacts: Var,
}

/// The addresses that the host answered with when it was asked for its
/// interfaces, null where it had none, and the values that were read from them
/// once.
#[derive(Clone, Copy, Debug, PartialEq, Eq, Structural)]
pub struct Addresses {
    pub client: u64,
    pub client_mode: u64,
    pub model_render: u64,
    pub model_info: u64,
    pub engine: u64,
    pub entity_list: u64,
    pub globals: u64,
    pub input: u64,
    pub physics: u64,
    pub tracer: u64,
    pub console: u64,
    pub flat: u64,
    pub cheats: u64,
    pub ffa: u64,
    pub gravity: u64,
    pub infinite_ammo: u64,
    pub lost_focus_sleep: u64,
    pub model_stats_overlay: u64,
    pub panorama_blur: u64,
    pub physics_timescale: u64,
    pub post_processing: u64,
    pub ragdoll_gravity: u64,
    pub show_impacts: u64,
    pub animation_layers: u32,
    pub animation_state: u32,
}

/// Whether the host had every interface.
pub open spec fn all_resolved(addresses: Addresses) -> bool {
    &&& addresses.client != 0
    &&& addresses.client_mode != 0
    &&& addresses.model_render != 0
    &&& addresses.model_info != 0
    &&& addresses.engine != 0
    &&& addresses.entity_list != 0
    &&& addresses.globals != 0
    &&& addresses.input != 0
    &&& addresses.physics != 0
    &&& addresses.tracer != 0
    &&& addresses.console != 0
    &&& addresses.flat != 0
    &&& addresses.cheats != 0
    &&& addresses.ffa != 0
    &&& addresses.gravity != 0
    &&& addresses.infinite_ammo != 0
    &&& addresses.lost_focus_sleep != 0
    &&& addresses.model_stats_overlay != 0
    &&& addresses.panorama_blur != 0
    &&& addresses.physics_timescale != 0
    &&& addresses.post_processing != 0
    &&& addresses.ragdoll_gravity != 0
    &&& addresses.show_impacts != 0
}

/// Whether `interfaces` are handles to exactly the objects at `addresses`.
pub open spec fn resolved_from(interfaces: Interfaces, addresses: Addresses) -> bool {
    &&& interfaces.client.address() == addresses.client
    &&& interfaces.client_mode.address() == addresses.client_mode
    &&& interfaces.model_render.address() == addresses.model_render
    &&& interfaces.model_info.address() == addresses.model_info
    &&& interfaces.engine.address() == addresses.engine
    &&& interfaces.entity_list.address() == addresses.entity_list
    &&& interfaces.globals.address() == addresses.globals
    &&& interfaces.input.address() == addresses.input
    &&& interfaces.physics.address() == addresses.physics
    &&& interfaces.tracer.address() == addresses.tracer
    &&& interfaces.console.handle().address() == addresses.console
    &&& interfaces.flat.address() == addresses.flat
    &&& interfaces.cheats.handle().address() == addresses.cheats
    &&& interfaces.ffa.handle().address() == addresses.ffa
    &&& interfaces.gravity.handle().address() == addresses.gravity
    &&& interfaces.infinite_ammo.handle().address() == addresses.infinite_ammo
    &&& interfaces.lost_focus_sleep.handle().address() == addresses.lost_focus_sleep
    &&& interfaces.model_stats_overlay.handle().address() == addresses.model_stats_overlay
    &&& interfaces.panorama_blur.handle().address() == addresses.panorama_blur
    &&& interfaces.physics_timescale.handle().address() == addresses.physics_timescale
    &&& interfaces.post_processing.handle().address() == addresses.post_processing
    &&& interfaces.ragdoll_gravity.handle().address() == addresses.ragdoll_gravity
    &&& interfaces.show_impacts.handle().address() == addresses.show_impacts
    &&& interfaces.animation_layers == addresses.animation_layers
    &&& interfaces.animation_state == addresses.animation_state
}

impl Addresses {
    /// The three requests that are always made, for the objects at these
    /// addresses.
    pub open spec fn requests(
        self,
        memory: &Memory,
        replacements: Replacements,
    ) -> Seq<HookRequest> {
        standard_requests(self.client_mode, self.client, self.model_render, memory, replacements)
    }

    /// Whether the three replacements can be installed for the objects at
    /// these addresses.
    pub open spec fn attachable(self, memory: &Memory, replacements: Replacements) -> bool {
        attachable(self.client_mode, self.client, self.model_render, memory, replacements)
    }
}

impl Interfaces {
    /// The three requests that are always made, for these interfaces.
    pub open spec fn requests(
        self,
        memory: &Memory,
        replacements: Replacements,
    ) -> Seq<HookRequest> {
        standard_requests(
            self.client_mode.address(),
            self.client.address(),
            self.model_render.address(),
            memory,
            replacements,
        )
    }

    /// Whether the three replacements can be installed for these interfaces.
    pub open spec fn attachable(self, memory: &Memory, replacements: Replacements) -> bool {
        attachable(
            self.client_mode.address(),
            self.client.address(),
            self.model_render.address(),
            memory,
            replacements,
        )
    }

    /// Handles to the objects at `addresses`. Where the host had none for one
    /// of them, there are no interfaces.
    pub fn resolve(addresses: &Addresses) -> (result: Result<Interfaces, Error>)
        ensures
            match result {
                Ok(interfaces) => all_resolved(*addresses) && resolved_from(interfaces, *addresses),
                Err(error) => !all_resolved(*addresses) && error == Error::NullHandle,
            },
    {
        Ok(
            Interfaces {
                client: Managed::resolve(addresses.client)?,
                client_mode: Managed::resolve(addresses.client_mode)?,
                model_render: Managed::resolve(addresses.model_render)?,
                model_info: Managed::resolve(addresses.model_info)?,
                engine: Managed::resolve(addresses.engine)?,
                entity_list: Managed::resolve(addresses.entity_list)?,
                globals: Managed::resolve(addresses.globals)?,
                input: Managed::resolve(addresses.input)?,
                physics: Managed::resolve(addresses.physics)?,
                tracer: Managed::resolve(addresses.tracer)?,
                console: Console::resolve(addresses.console)?,
                flat: Managed::resolve(addresses.flat)?,
                cheats: Var::resolve(addresses.cheats)?,
                ffa: Var::resolve(addresses.ffa)?,
                gravity: Var::resolve(addresses.gravity)?,
                infinite_ammo: Var::resolve(addresses.infinite_ammo)?,
                lost_focus_sleep: Var::resolve(addresses.lost_focus_sleep)?,
                model_stats_overlay: Var::resolve(addresses.model_stats_overlay)?,
                panorama_blur: Var::resolve(addresses.panorama_blur)?,
                physics_timescale: Var::resolve(addresses.physics_timescale)?,
                post_processing: Var::resolve(addresses.post_processing)?,
                ragdoll_gravity: Var::resolve(addresses.ragdoll_gravity)?,
                show_impacts: Var::resolve(addresses.show_impacts)?,
                animation_layers: addresses.animation_layers,
                animation_state: addresses.animation_state,
            },
        )
    }
}

/// The functions that take the place of the three entry points that are
/// always intercepted.
#[derive(Clone, Copy, Debug, PartialEq, Eq, Structural)]
pub struct Replacements {
    pub create_move: u64,
    pub frame_stage_notify: u64,
    pub draw_model_execute: u64,
}

/// Whether the virtual tables of the three objects that are always
/// intercepted can be read from `memory`: the client mode, the client and the
/// model renderer, by their addresses.
pub open spec fn resolves(
    client_mode: u64,
    client: u64,
    model_render: u64,
    memory: &Memory,
) -> bool {
    &&& memory.words().contains_key(client_mode)
    &&& memory.words().contains_key(client)
    &&& memory.words().contains_key(model_render)
}

/// The three requests that are always made, in the order in which they are
/// carried out, for the client mode, the client and the model renderer at
/// the given addresses.
pub open spec fn standard_requests(
    client_mode: u64,
    client: u64,
    model_render: u64,
    memory: &Memory,
    replacements: Replacements,
) -> Seq<HookRequest> {
    seq![
        HookRequest {
            slot: TableSlot { table_base: memory.words()[client_mode], index: CREATE_MOVE_SLOT },
            replacement: replacements.create_move,
        },
        HookRequest {
            slot: TableSlot { table_base: memory.words()[client], index: FRAME_STAGE_NOTIFY_SLOT },
            replacement: replacements.frame_stage_notify,
        },
        HookRequest {
            slot: TableSlot {
                table_base: memory.words()[model_render],
                index: DRAW_MODEL_EXECUTE_SLOT,
            },
            replacement: replacements.draw_model_execute,
        },
    ]
}

/// Whether the three replacements can be installed for the client mode, the
/// client and the model renderer at the given addresses: their tables can be
/// read, and every request can be carried out.
pub open spec fn attachable(
    client_mode: u64,
    client: u64,
    model_render: u64,
    memory: &Memory,
    replacements: Replacements,
) -> bool {
    &&& resolves(client_mode, client, model_render, memory)
    &&& installable(
        Seq::<HookRecord>::empty(),
        memory,
        standard_requests(client_mode, client, model_render, memory, replacements),
    )
}

/// The registry of installed replacements and of the state that their
/// callbacks share.
pub struct Global {
    interfaces: Interfaces,
    hooks: Hooks,
    shared: Shared,
}

impl Global {
    /// The interfaces that the registry was set up with.
    pub closed spec fn interfaces_of(&self) -> Interfaces {
        self.interfaces
    }

    /// The installed replacements.
    pub closed spec fn hooks_of(&self) -> Hooks {
        self.hooks
    }

    /// What holds of every registry: no cell has two records.
    pub open spec fn wf(&self) -> bool {
        self.hooks_of().wf()
    }

    /// Installs every one of `requests`, in order, and publishes in `registry`
    /// the registry that holds what they replaced: from then on callbacks find
    /// it there.
    ///
    /// Nothing happens by halves. Where `registry` was used before, or where
    /// one of the requests cannot be installed, nothing is written and
    /// `registry` stays as it was.
    pub fn attach(
        registry: &mut Registry,
        interfaces: Interfaces,
        memory: &mut Memory,
        requests: &Vec<HookRequest>,
    ) -> (result: Result<(), Error>)
        requires
            old(registry).wf(),
        ensures
            final(registry).wf(),
            final(memory).pages() == old(memory).pages(),
            result == attach_outcome(*old(registry), old(memory), requests@),
            match result {
                Ok(_) => {
                    &&& *final(registry) is Initialized
                    &&& final(registry)->0.interfaces_of() == interfaces
                    &&& final(registry)->0.hooks_of()@ == recorded(old(memory).words(), requests@)
                    &&& final(memory).words() == patched(old(memory).words(), requests@)
                },
                Err(_) => {
                    &&& *final(registry) == *old(registry)
                    &&& final(memory).words() == old(memory).words()
                },
            },
    {
        if !matches!(registry, Registry::Uninitialized) {
            return Err(Error::AlreadyInstalled);
        }
        let mut hooks = Hooks::new();
        hooks.install_all(memory, requests)?;
        *registry = Registry::Initialized(Global { interfaces, hooks, shared: Shared::new() });
        Ok(())
    }

    /// Sets up the registry, once: installs the replacements for the three
    /// entry points that are always intercepted, each in the virtual table of
    /// its object, starts the shared state afresh, and publishes the registry
    /// in `registry`.
    ///
    /// The tables are looked up before anything is written. Where `registry`
    /// was used before, where one of the three objects is not in the image, or
    /// where one replacement cannot be installed, nothing is written and
    /// `registry` stays as it was.
    pub fn init(
        registry: &mut Registry,
        interfaces: Interfaces,
        memory: &mut Memory,
        replacements: Replacements,
    ) -> (result: Result<(), Error>)
        requires
            old(registry).wf(),
        ensures
            final(registry).wf(),
            final(memory).pages() == old(memory).pages(),
            result == init_outcome(*old(registry), interfaces, old(memory), replacements),
            match result {
                Ok(_) => {
                    &&& *final(registry) is Initialized
                    &&& final(registry)->0.interfaces_of() == interfaces
                    &&& final(registry)->0.hooks_of()@ == recorded(
                        old(memory).words(),
                        interfaces.requests(old(memory), replacements),
                    )
                    &&& final(memory).words() == patched(
                        old(memory).words(),
                        interfaces.requests(old(memory), replacements),
                    )
                },
                Err(_) => {
                    &&& *final(registry) == *old(registry)
                    &&& final(memory).words() == old(memory).words()
                },
            },
    {
        if !matches!(registry, Registry::Uninitialized) {
            return Err(Error::AlreadyInstalled);
        }
        let tables = (
            memory.get(interfaces.client_mode.as_ptr()),
            memory.get(interfaces.client.as_ptr()),
            memory.get(interfaces.model_render.as_ptr()),
        );
        let (client_mode, client, model_render) = match tables {
            (Some(client_mode), Some(client), Some(model_render)) => (
                client_mode,
                client,
                model_render,
            ),
            _ => {
                return Err(Error::HookInstallFailed);
            },
        };
        let mut requests: Vec<HookRequest> = Vec::new();
        requests.push(
            HookRequest {
                slot: TableSlot::new(client_mode, CREATE_MOVE_SLOT),
                replacement: replacements.create_move,
            },
        );
        requests.push(
            HookRequest {
                slot: TableSlot::new(client, FRAME_STAGE_NOTIFY_SLOT),
                replacement: replacements.frame_stage_notify,
            },
        );
        requests.push(
            HookRequest {
                slot: TableSlot::new(model_render, DRAW_MODEL_EXECUTE_SLOT),
                replacement: replacements.draw_model_execute,
            },
        );
        proof {
            assert(requests@ =~= interfaces.requests(old(memory), replacements));
        }
        Global::attach(registry, interfaces, memory, &requests)
    }

    /// The interfaces that the registry was set up with.
    pub fn interfaces(&self) -> (interfaces: &Interfaces)
        ensures
            *interfaces == self.interfaces_of(),
    {
        &self.interfaces
    }

    /// The installed replacements.
    pub fn hooks(&self) -> (hooks: &Hooks)
        ensures
            *hooks == self.hooks_of(),
    {
        &self.hooks
    }

    /// Calls what `slot` held before its replacement went in; see
    /// [`Hooks::invoke_original`].
    pub fn invoke_original<A, R, F: Fn(u64, A) -> R>(
        &self,
        slot: TableSlot,
        call: F,
        args: A,
    ) -> (result: R)
        requires
            self.wf(),
            self.hooks_of().installed(slot),
            call.requires((self.hooks_of().original_of(slot), args)),
        ensures
            call.ensures((self.hooks_of().original_of(slot), args), result),
    {
        self.hooks.invoke_original(slot, call, args)
    }

    /// Calls what the replacement for the movement command took the place
    /// of: the host's own function, which [`Global::init`] recorded first.
    pub fn create_move_original<A, R, F: Fn(u64, A) -> R>(&self, call: F, args: A) -> (result: R)
        requires
            0 < self.hooks_of()@.len(),
            self.hooks_of()@[0].slot.index == CREATE_MOVE_SLOT,
            call.requires((self.hooks_of()@[0].original, args)),
        ensures
            call.ensures((self.hooks_of()@[0].original, args), result),
    {
        call(self.hooks.record(0).original, args)
    }

    /// Calls what the replacement for the frame stage took the place of: the
    /// host's own function, which [`Global::init`] recorded second.
    pub fn frame_stage_notify_original<A, R, F: Fn(u64, A) -> R>(
        &self,
        call: F,
        args: A,
    ) -> (result: R)
        requires
            1 < self.hooks_of()@.len(),
            self.hooks_of()@[1].slot.index == FRAME_STAGE_NOTIFY_SLOT,
            call.requires((self.hooks_of()@[1].original, args)),
        ensures
            call.ensures((self.hooks_of()@[1].original, args), result),
    {
        call(self.hooks.record(1).original, args)
    }

    /// Calls what the replacement for drawing a model took the place of: the
    /// host's own function, which [`Global::init`] recorded third.
    pub fn draw_model_execute_original<A, R, F: Fn(u64, A) -> R>(
        &self,
        call: F,
        args: A,
    ) -> (result: R)
        requires
            2 < self.hooks_of()@.len(),
            self.hooks_of()@[2].slot.index == DRAW_MODEL_EXECUTE_SLOT,
            call.requires((self.hooks_of()@[2].original, args)),
        ensures
            call.ensures((self.hooks_of()@[2].original, args), result),
    {
        call(self.hooks.record(2).original, args)
    }

    /// The tick count as it is now.
    pub fn tick(&self) -> u32 {
        self.shared.tick()
    }

    /// Sets the tick count.
    pub fn set_tick(&self, tick: u32) {
        self.shared.set_tick(tick);
    }

    /// Adds one to the tick count, in one step.
    pub fn increment_tick(&self) {
        self.shared.increment_tick();
    }

    /// Whether the last command has been predicted, as it is now.
    pub fn last_command_has_been_predicted(&self) -> bool {
        self.shared.last_command_has_been_predicted()
    }

    /// Sets whether the last command has been predicted.
    pub fn set_last_command_has_been_predicted(&self, predicted: bool) {
        self.shared.set_last_command_has_been_predicted(predicted);
    }

    /// The local player as it is known now, if one is known.
    pub fn local_player(&self) -> Option<Entity> {
        self.shared.local_player()
    }

    /// Sets the local player, or forgets it.
    pub fn set_local_player(&self, player: Option<Entity>) {
        self.shared.set_local_player(player);
    }

    /// The globals of the host.
    pub fn globals(&self) -> (globals: &Managed)
        ensures
            *globals == self.interfaces_of().globals,
    {
        &self.interfaces.globals
    }

    /// The physics interface.
    pub fn physics(&self) -> (physics: &Managed)
        ensures
            *physics == self.interfaces_of().physics,
    {
        &self.interfaces.physics
    }

    /// The input interface.
    pub fn input(&self) -> (input: &Managed)
        ensures
            *input == self.interfaces_of().input,
    {
        &self.interfaces.input
    }

    /// The engine interface.
    pub fn engine(&self) -> (engine: &Managed)
        ensures
            *engine == self.interfaces_of().engine,
    {
        &self.interfaces.engine
    }

    /// The entity list.
    pub fn entity_list(&self) -> (entity_list: &Managed)
        ensures
            *entity_list == self.interfaces_of().entity_list,
    {
        &self.interfaces.entity_list
    }

    /// The ray tracer.
    pub fn tracer(&self) -> (tracer: &Managed)
        ensures
            *tracer == self.interfaces_of().tracer,
    {
        &self.interfaces.tracer
    }

    /// The client interface.
    pub fn client(&self) -> (client: &Managed)
        ensures
            *client == self.interfaces_of().client,
    {
        &self.interfaces.client
    }

    /// The model renderer.
    pub fn model_render(&self) -> (model_render: &Managed)
        ensures
            *model_render == self.interfaces_of().model_render,
    {
        &self.interfaces.model_render
    }

    /// The model information interface.
    pub fn model_info(&self) -> (model_info: &Managed)
        ensures
            *model_info == self.interfaces_of().model_info,
    {
        &self.interfaces.model_info
    }

    /// The console.
    pub fn console(&self) -> (console: &Console)
        ensures
            *console == self.interfaces_of().console,
    {
        &self.interfaces.console
    }

    /// The offset of the animation layers of a player.
    pub fn animation_layers(&self) -> (animation_layers: u32)
        ensures
            animation_layers == self.interfaces_of().animation_layers,
    {
        self.interfaces.animation_layers
    }

    /// The offset of the animation state of a player.
    pub fn animation_state(&self) -> (animation_state: u32)
        ensures
            animation_state == self.interfaces_of().animation_state,
    {
        self.interfaces.animation_state
    }

    /// The variable that allows cheat commands.
    pub fn cheats(&self) -> (cheats: &Var)
        ensures
            *cheats == self.interfaces_of().cheats,
    {
        &self.interfaces.cheats
    }

    /// The variable that tells whether teammates are enemies.
    pub fn ffa(&self) -> (ffa: &Var)
        ensures
            *ffa == self.interfaces_of().ffa,
    {
        &self.interfaces.ffa
    }

    /// The variable that holds the gravity.
    pub fn gravity(&self) -> (gravity: &Var)
        ensures
            *gravity == self.interfaces_of().gravity,
    {
        &self.interfaces.gravity
    }

    /// The variable that controls infinite ammunition.
    pub fn infinite_ammo(&self) -> (infinite_ammo: &Var)
        ensures
            *infinite_ammo == self.interfaces_of().infinite_ammo,
    {
        &self.interfaces.infinite_ammo
    }

    /// The variable that controls sleeping while the window has no focus.
    pub fn lost_focus_sleep(&self) -> (lost_focus_sleep: &Var)
        ensures
            *lost_focus_sleep == self.interfaces_of().lost_focus_sleep,
    {
        &self.interfaces.lost_focus_sleep
    }

    /// The variable that controls the model statistics overlay.
    pub fn model_stats_overlay(&self) -> (model_stats_overlay: &Var)
        ensures
            *model_stats_overlay == self.interfaces_of().model_stats_overlay,
    {
        &self.interfaces.model_stats_overlay
    }

    /// The variable that controls the blur behind the interface.
    pub fn panorama_blur(&self) -> (panorama_blur: &Var)
        ensures
            *panorama_blur == self.interfaces_of().panorama_blur,
    {
        &self.interfaces.panorama_blur
    }

    /// The variable that holds the time scale of the physics.
    pub fn physics_timescale(&self) -> (physics_timescale: &Var)
        ensures
            *physics_timescale == self.interfaces_of().physics_timescale,
    {
        &self.interfaces.physics_timescale
    }

    /// The variable that controls post processing.
    pub fn post_processing(&self) -> (post_processing: &Var)
        ensures
            *post_processing == self.interfaces_of().post_processing,
    {
        &self.interfaces.post_processing
    }

    /// The variable that holds the gravity of ragdolls.
    pub fn ragdoll_gravity(&self) -> (ragdoll_gravity: &Var)
        ensures
            *ragdoll_gravity == self.interfaces_of().ragdoll_gravity,
    {
        &self.interfaces.ragdoll_gravity
    }

    /// The variable that controls the display of bullet impacts.
    pub fn show_impacts(&self) -> (show_impacts: &Var)
        ensures
            *show_impacts == self.interfaces_of().show_impacts,
    {
        &self.interfaces.show_impacts
    }

    /// The flat material.
    pub fn flat_material(&self) -> (material: &Managed)
        ensures
            *material == self.interfaces_of().flat,
    {
        &self.interfaces.flat
    }

    /// The registry that `registry` holds. There is none before one was
    /// published, nor after it was torn down.
    pub fn handle(registry: &Registry) -> (global: &Global)
        requires
            registry is Initialized,
        ensures
            *global == registry->0,
    {
        registry.get().unwrap()
    }
}

/// What [`Global::attach`] answers, given the place and the memory it finds:
/// a place that was used before refuses, then a request that cannot be
/// carried out is reported.
pub open spec fn attach_outcome(
    registry: Registry,
    memory: &Memory,
    requests: Seq<HookRequest>,
) -> Result<(), Error> {
    if !(registry is Uninitialized) {
        Err(Error::AlreadyInstalled)
    } else if !installable(Seq::<HookRecord>::empty(), memory, requests) {
        Err(Error::HookInstallFailed)
    } else {
        Ok(())
    }
}

/// What [`Global::init`] answers, given the place and the memory it finds: a
/// place that was used before refuses, then a replacement that cannot be
/// installed is reported.
pub open spec fn init_outcome(
    registry: Registry,
    interfaces: Interfaces,
    memory: &Memory,
    replacements: Replacements,
) -> Result<(), Error> {
    if !(registry is Uninitialized) {
        Err(Error::AlreadyInstalled)
    } else if !interfaces.attachable(memory, replacements) {
        Err(Error::HookInstallFailed)
    } else {
        Ok(())
    }
}

/// What [`Registry::attach`] answers, given the place, the addresses and the
/// memory it finds: a place that was used before refuses, then a missing
/// interface is reported, then a replacement that cannot be installed.
pub open spec fn resolve_and_init_outcome(
    registry: Registry,
    addresses: Addresses,
    memory: &Memory,
    replacements: Replacements,
) -> Result<(), Error> {
    if !(registry is Uninitialized) {
        Err(Error::AlreadyInstalled)
    } else if !all_resolved(addresses) {
        Err(Error::NullHandle)
    } else if !addresses.attachable(memory, replacements) {
        Err(Error::HookInstallFailed)
    } else {
        Ok(())
    }
}

/// The place where the one registry of a process is kept, from before it is
/// set up until after it is torn down.
pub enum Registry {
    /// Nothing was published yet.
    Uninitialized,
    /// A registry was published, and callbacks may use it.
    Initialized(Global),
    /// The registry was torn down; there will be no other.
    TornDown,
}

impl Registry {
    /// What holds of every place: the registry in it, if any, is well formed.
    pub open spec fn wf(&self) -> bool {
        self matches Registry::Initialized(global) ==> global.wf()
    }

    /// A place that holds nothing yet.
    pub fn new() -> (registry: Registry)
        ensures
            registry is Uninitialized,
    {
        Registry::Uninitialized
    }

    /// Whether a registry was published and not torn down.
    pub fn is_initialized(&self) -> (initialized: bool)
        ensures
            initialized == (self is Initialized),
    {
        matches!(self, Registry::Initialized(_))
    }

    /// The registry, if one was published and not torn down.
    pub fn get(&self) -> (global: Option<&Global>)
        ensures
            match global {
                Some(found) => self is Initialized && *found == self->0,
                None => !(self is Initialized),
            },
    {
        match self {
            Registry::Initialized(global) => Some(global),
            _ => None,
        }
    }

    /// Attaches to the host, once: resolves the interfaces at `addresses`,
    /// installs the three replacements that are always made, and publishes
    /// the registry that holds what they replaced.
    ///
    /// Nothing happens by halves. Where a registry was published before, where
    /// the host had no object for one of the interfaces, or where one of the
    /// replacements cannot be installed, nothing is written and the place
    /// stays as it was.
    pub fn attach(
        &mut self,
        addresses: &Addresses,
        memory: &mut Memory,
        replacements: Replacements,
    ) -> (result: Result<(), Error>)
        requires
            old(self).wf(),
        ensures
            final(self).wf(),
            final(memory).pages() == old(memory).pages(),
            result == resolve_and_init_outcome(
                *old(self),
                *addresses,
                old(memory),
                replacements,
            ),
            match result {
                Ok(_) => {
                    &&& *final(self) is Initialized
                    &&& resolved_from(final(self)->0.interfaces_of(), *addresses)
                    &&& final(self)->0.hooks_of()@ == recorded(
                        old(memory).words(),
                        addresses.requests(old(memory), replacements),
                    )
                    &&& final(memory).words() == patched(
                        old(memory).words(),
                        addresses.requests(old(memory), replacements),
                    )
                },
                Err(_) => {
                    &&& *final(self) == *old(self)
                    &&& final(memory).words() == old(memory).words()
                },
            },
    {
        if !matches!(self, Registry::Uninitialized) {
            return Err(Error::AlreadyInstalled);
        }
        let interfaces = Interfaces::resolve(addresses)?;
        Global::init(self, interfaces, memory, replacements)
    }

    /// Tears the registry down: takes every replacement out again, the newest
    /// first, after which the place holds nothing for good. Where a
    /// replacement cannot be taken out, none is, and the registry stays
    /// published. A place without a published registry is left as it is.
    pub fn teardown(&mut self, memory: &mut Memory) -> (result: Result<(), Error>)
        requires
            old(self).wf(),
        ensures
            final(self).wf(),
            final(memory).pages() == old(memory).pages(),
            match *old(self) {
                Registry::Initialized(global) => {
                    if restorable(global.hooks_of()@, old(memory)) {
                        &&& result == Ok::<(), Error>(())
                        &&& *final(self) is TornDown
                        &&& final(memory).words() == restored(
                            old(memory).words(),
                            global.hooks_of()@,
                        )
                    } else {
                        &&& result == Err::<(), Error>(Error::HookInstallFailed)
                        &&& *final(self) is Initialized
                        &&& final(self)->0.hooks_of()@ == global.hooks_of()@
                        &&& final(self)->0.interfaces_of() == global.interfaces_of()
                        &&& final(memory).words() == old(memory).words()
                    }
                },
                _ => {
                    &&& result == Ok::<(), Error>(())
                    &&& *final(self) == *old(self)
                    &&& final(memory).words() == old(memory).words()
                },
            },
    {
        match self {
            Registry::Initialized(global) => {
                let result = global.hooks.restore_all(memory);
                if result.is_ok() {
                    *self = Registry::TornDown;
                }
                result
            },
            _ => Ok(()),
        }
    }
}

/// A place that was used refuses every further set up, whatever the memory
/// holds by then: a registry is set up once in the life of a process.
pub proof fn set_up_happens_once(
    registry: Registry,
    interfaces: Interfaces,
    addresses: Addresses,
    memory: &Memory,
    requests: Seq<HookRequest>,
    replacements: Replacements,
)
    requires
        !(registry is Uninitialized),
    ensures
        attach_outcome(registry, memory, requests) == Err::<(), Error>(Error::AlreadyInstalled),
        init_outcome(registry, interfaces, memory, replacements) == Err::<(), Error>(
            Error::AlreadyInstalled,
        ),
        resolve_and_init_outcome(registry, addresses, memory, replacements) == Err::<(), Error>(
            Error::AlreadyInstalled,
        ),
{
}

/// An image into which the three replacements went refuses them once more,
/// even in a place that was never used: no registry comes to keep a
/// replacement as what it replaced. This holds where the three objects still
/// point to the tables that they pointed to before.
pub proof fn hooked_image_refuses_init(
    interfaces: Interfaces,
    before: &Memory,
    after: &Memory,
    replacements: Replacements,
)
    requires
        after.words() == patched(before.words(), interfaces.requests(before, replacements)),
        interfaces.client_mode.table(after) == interfaces.client_mode.table(before),
        interfaces.client.table(after) == interfaces.client.table(before),
        interfaces.model_render.table(after) == interfaces.model_render.table(before),
    ensures
        init_outcome(Registry::Uninitialized, interfaces, after, replacements) == Err::<(), Error>(
            Error::HookInstallFailed,
        ),
{
    let requests = interfaces.requests(before, replacements);
    installed_batch_is_refused(Seq::<HookRecord>::empty(), before.words(), after, requests);
}

} // verus!
