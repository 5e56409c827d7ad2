//! Address tables for the v1.11b host build. All subsystems live in one
//! module image, addressed by offsets from its load base or by export
//! ordinals.

use vstd::prelude::*;
use crate::descriptor::{
    AddressDescriptor, Convention, FieldSpecView, ValueType, callable, callable_field, data,
    data_field, opt_ptr, opt_ptr_field,
};
use crate::table::VersionTable;

verus! {

/// Client-state subsystem fields of the v1.11b build.
pub open spec fn client_fields() -> Seq<FieldSpecView> {
    seq![
        opt_ptr_field("player"@, ValueType::Ptr, AddressDescriptor::Offset(0x11c1e0)),
        opt_ptr_field("env_effects"@, ValueType::Ptr, AddressDescriptor::Offset(0x11c518)),
        data_field("game_type"@, ValueType::U32, AddressDescriptor::Offset(0x11c2ac)),
        data_field("entity_table"@, ValueType::Ptr, AddressDescriptor::Offset(0x10b470)),
        data_field("entity_table2"@, ValueType::Ptr, AddressDescriptor::Offset(0x10a870)),
        data_field("client_loop_globals"@, ValueType::Ptr, AddressDescriptor::Offset(0x11a280)),
        callable_field(
            "apply_pos_change"@,
            seq![ValueType::Ptr, ValueType::Fixed16, ValueType::Fixed16, ValueType::Ptr],
            None,
            Convention::Stdcall,
            AddressDescriptor::Offset(0x7c100),
        ),
        data_field("cursor_table"@, ValueType::Ptr, AddressDescriptor::Offset(0xd4a30)),
        data_field("game_cursor"@, ValueType::U32, AddressDescriptor::Offset(0xfb424)),
        // Zero offset: this build assigns the field no real location yet;
        // consumers must treat the resolved address as absent.
        data_field("summit_cloud_x_pos"@, ValueType::U32, AddressDescriptor::Offset(0)),
    ]
}

/// Graphics subsystem fields of the v1.11b build.
pub open spec fn gfx_fields() -> Seq<FieldSpecView> {
    seq![
        callable_field(
            "in_perspective"@,
            Seq::<ValueType>::empty(),
            Some(ValueType::U32),
            Convention::Stdcall,
            AddressDescriptor::Ordinal(10046),
        ),
        data_field("hwnd"@, ValueType::Ptr, AddressDescriptor::Ordinal(10022)),
        callable_field(
            "draw_line"@,
            seq![ValueType::U32, ValueType::U32, ValueType::U32, ValueType::U32, ValueType::U32],
            None,
            Convention::Stdcall,
            AddressDescriptor::Ordinal(10001),
        ),
        callable_field(
            "find_closest_color"@,
            seq![ValueType::U32, ValueType::U32, ValueType::U32],
            Some(ValueType::U32),
            Convention::Stdcall,
            AddressDescriptor::Ordinal(10070),
        ),
        data_field("viewport_width"@, ValueType::U32, AddressDescriptor::Offset(0x123394)),
        data_field("viewport_height"@, ValueType::U32, AddressDescriptor::Offset(0x123390)),
        data_field("viewport_shift"@, ValueType::U32, AddressDescriptor::Offset(0x11c3e8)),
    ]
}

/// Game-server subsystem fields of the v1.11b build.
pub open spec fn game_fields() -> Seq<FieldSpecView> {
    seq![data_field("server_update_time"@, ValueType::U32, AddressDescriptor::Offset(0x111c00))]
}

/// Window subsystem fields of the v1.11b build.
pub open spec fn win_fields() -> Seq<FieldSpecView> {
    seq![
        callable_field(
            "draw_menu"@,
            Seq::<ValueType>::empty(),
            None,
            Convention::Stdcall,
            AddressDescriptor::Ordinal(10129),
        ),
    ]
}

/// The client-state table of the v1.11b build.
pub fn client_table() -> (r: VersionTable)
    ensures
        r@.name == "v111b_client"@,
        r@.fields == client_fields(),
{
    let mut fields: Vec<crate::descriptor::FieldSpec> = Vec::new();
    fields.push(opt_ptr("player", ValueType::Ptr, AddressDescriptor::Offset(0x11c1e0)));
    fields.push(opt_ptr("env_effects", ValueType::Ptr, AddressDescriptor::Offset(0x11c518)));
    fields.push(data("game_type", ValueType::U32, AddressDescriptor::Offset(0x11c2ac)));
    fields.push(data("entity_table", ValueType::Ptr, AddressDescriptor::Offset(0x10b470)));
    fields.push(data("entity_table2", ValueType::Ptr, AddressDescriptor::Offset(0x10a870)));
    fields.push(data("client_loop_globals", ValueType::Ptr, AddressDescriptor::Offset(0x11a280)));
    let mut args: Vec<ValueType> = Vec::new();
    args.push(ValueType::Ptr);
    args.push(ValueType::Fixed16);
    args.push(ValueType::Fixed16);
    args.push(ValueType::Ptr);
    proof {
        assert(args@ =~= seq![
            ValueType::Ptr,
            ValueType::Fixed16,
            ValueType::Fixed16,
            ValueType::Ptr,
        ]);
    }
    fields.push(
        callable(
            "apply_pos_change",
            args,
            None,
            Convention::Stdcall,
            AddressDescriptor::Offset(0x7c100),
        ),
    );
    fields.push(data("cursor_table", ValueType::Ptr, AddressDescriptor::Offset(0xd4a30)));
    fields.push(data("game_cursor", ValueType::U32, AddressDescriptor::Offset(0xfb424)));
    fields.push(data("summit_cloud_x_pos", ValueType::U32, AddressDescriptor::Offset(0)));
    let r = VersionTable { name: "v111b_client".to_owned(), fields };
    proof {
        assert(r@.fields =~= client_fields());
    }
    r
}

/// The graphics table of the v1.11b build.
pub fn gfx_table() -> (r: VersionTable)
    ensures
        r@.name == "v111b_gfx"@,
        r@.fields == gfx_fields(),
{
    let mut fields: Vec<crate::descriptor::FieldSpec> = Vec::new();
    let no_args: Vec<ValueType> = Vec::new();
    proof {
        assert(no_args@ =~= Seq::<ValueType>::empty());
    }
    fields.push(
        callable(
            "in_perspective",
            no_args,
            Some(ValueType::U32),
            Convention::Stdcall,
            AddressDescriptor::Ordinal(10046),
        ),
    );
    fields.push(data("hwnd", ValueType::Ptr, AddressDescriptor::Ordinal(10022)));
    let mut line_args: Vec<ValueType> = Vec::new();
    line_args.push(ValueType::U32);
    line_args.push(ValueType::U32);
    line_args.push(ValueType::U32);
    line_args.push(ValueType::U32);
    line_args.push(ValueType::U32);
    proof {
        assert(line_args@ =~= seq![
            ValueType::U32,
            ValueType::U32,
            ValueType::U32,
            ValueType::U32,
            ValueType::U32,
        ]);
    }
    fields.push(
        callable(
            "draw_line",
            line_args,
            None,
            Convention::Stdcall,
            AddressDescriptor::Ordinal(10001),
        ),
    );
    let mut color_args: Vec<ValueType> = Vec::new();
    color_args.push(ValueType::U32);
    color_args.push(ValueType::U32);
    color_args.push(ValueType::U32);
    proof {
        assert(color_args@ =~= seq![ValueType::U32, ValueType::U32, ValueType::U32]);
    }
    fields.push(
        callable(
            "find_closest_color",
            color_args,
            Some(ValueType::U32),
            Convention::Stdcall,
            AddressDescriptor::Ordinal(10070),
        ),
    );
    fields.push(data("viewport_width", ValueType::U32, AddressDescriptor::Offset(0x123394)));
    fields.push(data("viewport_height", ValueType::U32, AddressDescriptor::Offset(0x123390)));
    fields.push(data("viewport_shift", ValueType::U32, AddressDescriptor::Offset(0x11c3e8)));
    let r = VersionTable { name: "v111b_gfx".to_owned(), fields };
    proof {
        assert(r@.fields =~= gfx_fields());
    }
    r
}

/// The game-server table of the v1.11b build.
pub fn game_table() -> (r: VersionTable)
    ensures
        r@.name == "v111b_game"@,
        r@.fields == game_fields(),
{
    let mut fields: Vec<crate::descriptor::FieldSpec> = Vec::new();
    fields.push(data("server_update_time", ValueType::U32, AddressDescriptor::Offset(0x111c00)));
    let r = VersionTable { name: "v111b_game".to_owned(), fields };
    proof {
        assert(r@.fields =~= game_fields());
    }
    r
}

/// The window table of the v1.11b build.
pub fn win_table() -> (r: VersionTable)
    ensures
        r@.name == "v111b_win"@,
        r@.fields == win_fields(),
{
    let mut fields: Vec<crate::descriptor::FieldSpec> = Vec::new();
    let no_args: Vec<ValueType> = Vec::new();
    proof {
        assert(no_args@ =~= Seq::<ValueType>::empty());
    }
    fields.push(
        callable(
            "draw_menu",
            no_args,
            None,
            Convention::Stdcall,
            AddressDescriptor::Ordinal(10129),
        ),
    );
    let r = VersionTable { name: "v111b_win".to_owned(), fields };
    proof {
        assert(r@.fields =~= win_fields());
    }
    r
}

} // verus!
