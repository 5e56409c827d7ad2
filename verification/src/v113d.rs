//! Address tables for the v1.13d host build. Each subsystem lives in its own
//! module image; every field is a fixed offset from that module's load base.

use vstd::prelude::*;
use crate::descriptor::{
    AddressDescriptor, Convention, FieldSpecView, ValueType, callable, callable_field, data,
    data_field, opt_ptr, opt_ptr_field,
};
use crate::table::VersionTable;

verus! {

/// Client-state subsystem fields of the v1.13d build.
pub open spec fn client_fields() -> Seq<FieldSpecView> {
    seq![
        // Pointer to the current player; may exist even when not in-game.
        opt_ptr_field("player"@, ValueType::Ptr, AddressDescriptor::Offset(0x11d050)),
        // Active splash effects.
        opt_ptr_field("env_splashes"@, ValueType::Ptr, AddressDescriptor::Offset(0x11d080)),
        // Active bubble effects.
        opt_ptr_field("env_bubbles"@, ValueType::Ptr, AddressDescriptor::Offset(0x11d084)),
        // Times the client has updated the game state.
        data_field("client_update_count"@, ValueType::U32, AddressDescriptor::Offset(0x108758)),
        // Type of game the client is currently running.
        data_field("game_type"@, ValueType::U32, AddressDescriptor::Offset(0x11d1dc)),
        // Table of active game entities.
        data_field("active_entity_tables"@, ValueType::Ptr, AddressDescriptor::Offset(0x1047b8)),
        // Currently selected draw function.
        data_field("draw_game_fn"@, ValueType::Ptr, AddressDescriptor::Offset(0x108744)),
        // Frame count used to calculate the client's current fps.
        data_field("client_fps_frame_count"@, ValueType::U32, AddressDescriptor::Offset(0x10876c)),
        // Total number of frames drawn by the client.
        data_field("client_frame_count"@, ValueType::U32, AddressDescriptor::Offset(0x108754)),
    ]
}

/// Graphics subsystem fields of the v1.13d build.
pub open spec fn gfx_fields() -> Seq<FieldSpecView> {
    seq![
        // Whether the game renders in perspective mode.
        callable_field(
            "render_in_perspective"@,
            Seq::<ValueType>::empty(),
            Some(ValueType::U32),
            Convention::Stdcall,
            AddressDescriptor::Offset(0xa8b0),
        ),
        // The game's window handle.
        data_field("hwnd"@, ValueType::Ptr, AddressDescriptor::Offset(0x14a44)),
    ]
}

/// Game-server subsystem fields of the v1.13d build.
pub open spec fn game_fields() -> Seq<FieldSpecView> {
    seq![
        // The time the game server most recently updated the game state.
        data_field("server_update_time"@, ValueType::U32, AddressDescriptor::Offset(0x111c30)),
    ]
}

/// Window subsystem fields of the v1.13d build.
pub open spec fn win_fields() -> Seq<FieldSpecView> {
    seq![
        // Draw the game's current menu.
        callable_field(
            "draw_menu"@,
            Seq::<ValueType>::empty(),
            None,
            Convention::Stdcall,
            AddressDescriptor::Offset(0xeb30),
        ),
    ]
}

/// The client-state table of the v1.13d build.
pub fn client_table() -> (r: VersionTable)
    ensures
        r@.name == "v113d_client"@,
        r@.fields == client_fields(),
{
    let mut fields: Vec<crate::descriptor::FieldSpec> = Vec::new();
    fields.push(opt_ptr("player", ValueType::Ptr, AddressDescriptor::Offset(0x11d050)));
    fields.push(opt_ptr("env_splashes", ValueType::Ptr, AddressDescriptor::Offset(0x11d080)));
    fields.push(opt_ptr("env_bubbles", ValueType::Ptr, AddressDescriptor::Offset(0x11d084)));
    fields.push(data("client_update_count", ValueType::U32, AddressDescriptor::Offset(0x108758)));
    fields.push(data("game_type", ValueType::U32, AddressDescriptor::Offset(0x11d1dc)));
    fields.push(data("active_entity_tables", ValueType::Ptr, AddressDescriptor::Offset(0x1047b8)));
    fields.push(data("draw_game_fn", ValueType::Ptr, AddressDescriptor::Offset(0x108744)));
    fields.push(
        data("client_fps_frame_count", ValueType::U32, AddressDescriptor::Offset(0x10876c)),
    );
    fields.push(data("client_frame_count", ValueType::U32, AddressDescriptor::Offset(0x108754)));
    let r = VersionTable { name: "v113d_client".to_owned(), fields };
    proof {
        assert(r@.fields =~= client_fields());
    }
    r
}

/// The graphics table of the v1.13d build.
pub fn gfx_table() -> (r: VersionTable)
    ensures
        r@.name == "v113d_gfx"@,
        r@.fields == gfx_fields(),
{
    let mut fields: Vec<crate::descriptor::FieldSpec> = Vec::new();
    let no_args: Vec<ValueType> = Vec::new();
    proof {
        assert(no_args@ =~= Seq::<ValueType>::empty());
    }
    fields.push(
        callable(
            "render_in_perspective",
            no_args,
            Some(ValueType::U32),
            Convention::Stdcall,
            AddressDescriptor::Offset(0xa8b0),
        ),
    );
    fields.push(data("hwnd", ValueType::Ptr, AddressDescriptor::Offset(0x14a44)));
    let r = VersionTable { name: "v113d_gfx".to_owned(), fields };
    proof {
        assert(r@.fields =~= gfx_fields());
    }
    r
}

/// The game-server table of the v1.13d build.
pub fn game_table() -> (r: VersionTable)
    ensures
        r@.name == "v113d_game"@,
        r@.fields == game_fields(),
{
    let mut fields: Vec<crate::descriptor::FieldSpec> = Vec::new();
    fields.push(data("server_update_time", ValueType::U32, AddressDescriptor::Offset(0x111c30)));
    let r = VersionTable { name: "v113d_game".to_owned(), fields };
    proof {
        assert(r@.fields =~= game_fields());
    }
    r
}

/// The window table of the v1.13d build.
pub fn win_table() -> (r: VersionTable)
    ensures
        r@.name == "v113d_win"@,
        r@.fields == win_fields(),
{
    let mut fields: Vec<crate::descriptor::FieldSpec> = Vec::new();
    let no_args: Vec<ValueType> = Vec::new();
    proof {
        assert(no_args@ =~= Seq::<ValueType>::empty());
    }
    fields.push(
        callable(
            "draw_menu",
            no_args,
            None,
            Convention::Stdcall,
            AddressDescriptor::Offset(0xeb30),
        ),
    );
    let r = VersionTable { name: "v113d_win".to_owned(), fields };
    proof {
        assert(r@.fields =~= win_fields());
    }
    r
}

} // verus!
