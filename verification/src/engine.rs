//! The record layouts of the observed engine, the fixed addresses its global
//! structures live at, and the validation predicate of each global.
//!
//! Every decode here is an explicit fixed-layout read: fixed field order,
//! fixed widths, no padding assumptions beyond the offsets written out in the
//! spec functions.  Floating-point fields of the observed process are carried
//! as raw 32-bit patterns; interpreting them is display work and stays outside
//! this crate.

use vstd::prelude::*;
use vstd::utf8::{decode_utf8, valid_utf8};

use crate::datum::Datum;
use crate::memory::{byte_at, i16_at, i32_at, nul_pos, u16_at, u32_at, Memory};

verus! {

/// Fixed address of the object pool header.
pub const HALO_OBJECT_POOL_HEADER_ADDR: u32 = 0x000B9370;

/// Fixed address of the player pool header.
pub const HALO_PLAYER_POOL_HEADER_ADDR: u32 = 0x00213C50;

/// Fixed address of the tag header.
pub const HALO_TAG_HEADER_ADDR: u32 = 0x003A6000;

/// Fixed address of the player globals.
pub const HALO_PLAYER_GLOBALS_ADDR: u32 = 0x00214E00;

/// Fixed address of the game globals.
pub const HALO_GAME_GLOBALS_ADDR: u32 = 0x611D4;

/// Fixed address of the game time globals.
pub const HALO_GAME_TIME_GLOBALS: u32 = 0x612E8;

/// Guard word found immediately before a genuine object body.
pub const DEAH: u32 = 1751474532;

/// Guard word closing the guard structure before a genuine object body.
pub const LIAT: u32 = 1952541036;

/// Footer word of an intact tag header.
pub const RNCS: u32 = 1935896178;

/// Number of local player seats in the player globals.
pub const MAXIMUM_NUMBER_OF_LOCAL_PLAYERS: usize = 4;

/// Which required global structure failed validation; any one of these is
/// fatal to the whole snapshot attempt.
#[derive(Clone, Copy, Debug, PartialEq, Eq, Structural)]
pub enum EngineError {
    /// The tag header's footer word did not match.
    TagHeader,
    /// The game options carried an out-of-range difficulty.
    GameGlobals,
    /// The player pool header failed its signature or validity check.
    PlayerHeader,
    /// The object pool header failed its signature or validity check.
    ObjectHeader,
}

/// The game options substructure of the game globals.
#[derive(Clone, Debug)]
pub struct GameOptions {
    pub unk_0: u32,
    pub unk_4: u16,
    /// Difficulty setting; a live structure keeps it in `[0, 4)`.
    pub difficulty: i16,
    pub random_seed: i32,
    /// Name of the loaded map, as a fixed 256-byte zero-terminated field.
    pub map_name: Vec<u8>,
}

/// Abstract content of `GameOptions`.
pub ghost struct GameOptionsView {
    pub unk_0: u32,
    pub unk_4: u16,
    pub difficulty: i16,
    pub random_seed: i32,
    pub map_name: Seq<u8>,
}

impl View for GameOptions {
    type V = GameOptionsView;

    open spec fn view(&self) -> GameOptionsView {
        GameOptionsView {
            unk_0: self.unk_0,
            unk_4: self.unk_4,
            difficulty: self.difficulty,
            random_seed: self.random_seed,
            map_name: self.map_name@,
        }
    }
}

/// The game options decoded at `addr`.
pub open spec fn spec_game_options_at(mem: Seq<u8>, addr: int) -> GameOptionsView {
    GameOptionsView {
        unk_0: u32_at(mem, addr),
        unk_4: u16_at(mem, addr + 4),
        difficulty: i16_at(mem, addr + 6),
        random_seed: i32_at(mem, addr + 8),
        map_name: Seq::new(256, |k: int| byte_at(mem, addr + 12 + k)),
    }
}

/// Whether decoded game options look live: the difficulty lies in `[0, 4)`.
pub open spec fn spec_game_options_valid(g: GameOptionsView) -> bool {
    g.difficulty >= 0 && g.difficulty < 4
}

impl GameOptions {
    /// Whether these options look live: the difficulty lies in `[0, 4)`.
    pub fn is_valid(&self) -> (r: bool)
        ensures
            r == spec_game_options_valid(self@),
    {
        self.difficulty >= 0 && self.difficulty < 4
    }

    /// Decodes the game options at `addr`.
    pub fn decode(memory: &Memory, addr: u64) -> (r: GameOptions)
        ensures
            r@ == spec_game_options_at(memory@, addr as int),
    {
        let mut map_name: Vec<u8> = Vec::new();
        let mut k: usize = 0;
        while k < 256
            invariant
                k <= 256,
                map_name@ == Seq::new(k as nat, |j: int| byte_at(memory@, addr as int + 12 + j)),
            decreases 256 - k,
        {
            map_name.push(memory.read_u8_off(addr, 12 + k as u64));
            k = k + 1;
            proof {
                assert(map_name@ =~= Seq::new(
                    k as nat,
                    |j: int| byte_at(memory@, addr as int + 12 + j),
                ));
            }
        }
        GameOptions {
            unk_0: memory.read_u32(addr),
            unk_4: memory.read_u16_off(addr, 4),
            difficulty: memory.read_i16_off(addr, 6),
            random_seed: memory.read_i32_off(addr, 8),
            map_name,
        }
    }
}

/// The game globals: load state flags and the game options.
#[derive(Clone, Debug)]
pub struct GameGlobals {
    pub map_loaded: u8,
    pub active: u8,
    pub players_double_speed: u8,
    pub map_loading: u8,
    /// Load progress as a raw 32-bit float pattern.
    pub map_load_progress_bits: u32,
    pub game_options: GameOptions,
}

/// Abstract content of `GameGlobals`.
pub ghost struct GameGlobalsView {
    pub map_loaded: u8,
    pub active: u8,
    pub players_double_speed: u8,
    pub map_loading: u8,
    pub map_load_progress_bits: u32,
    pub game_options: GameOptionsView,
}

impl View for GameGlobals {
    type V = GameGlobalsView;

    open spec fn view(&self) -> GameGlobalsView {
        GameGlobalsView {
            map_loaded: self.map_loaded,
            active: self.active,
            players_double_speed: self.players_double_speed,
            map_loading: self.map_loading,
            map_load_progress_bits: self.map_load_progress_bits,
            game_options: self.game_options@,
        }
    }
}

/// The game globals decoded at `addr`.
pub open spec fn spec_game_globals_at(mem: Seq<u8>, addr: int) -> GameGlobalsView {
    GameGlobalsView {
        map_loaded: byte_at(mem, addr),
        active: byte_at(mem, addr + 1),
        players_double_speed: byte_at(mem, addr + 2),
        map_loading: byte_at(mem, addr + 3),
        map_load_progress_bits: u32_at(mem, addr + 4),
        game_options: spec_game_options_at(mem, addr + 8),
    }
}

/// The game globals decoded at their fixed address.
pub open spec fn spec_game_globals(mem: Seq<u8>) -> GameGlobalsView {
    spec_game_globals_at(mem, HALO_GAME_GLOBALS_ADDR as int)
}

/// The map name the globals carry: the zero-terminated prefix of the map-name
/// field, decoded as text, when a map is loaded and that prefix decodes;
/// empty otherwise.
pub open spec fn spec_map_name_chars(g: GameGlobalsView) -> Seq<char> {
    let bs = g.game_options.map_name;
    let p = nul_pos(bs, 0);
    if g.map_loaded == 1 && p < bs.len() && valid_utf8(bs.take(p)) {
        decode_utf8(bs.take(p))
    } else {
        Seq::<char>::empty()
    }
}

impl GameGlobals {
    /// Decodes the game globals at `addr`.
    pub fn decode(memory: &Memory, addr: u32) -> (r: GameGlobals)
        ensures
            r@ == spec_game_globals_at(memory@, addr as int),
    {
        GameGlobals {
            map_loaded: memory.read_u8(addr as u64),
            active: memory.read_u8(addr as u64 + 1),
            players_double_speed: memory.read_u8(addr as u64 + 2),
            map_loading: memory.read_u8(addr as u64 + 3),
            map_load_progress_bits: memory.read_u32(addr as u64 + 4),
            game_options: GameOptions::decode(memory, addr as u64 + 8),
        }
    }

    /// Reads the game globals from their fixed address, accepting them only
    /// when the embedded game options validate.
    pub fn read_from(memory: &Memory) -> (r: Result<GameGlobals, EngineError>)
        ensures
            r is Ok <==> spec_game_options_valid(spec_game_globals(memory@).game_options),
            r matches Ok(g) ==> g@ == spec_game_globals(memory@),
            r matches Err(e) ==> e == EngineError::GameGlobals,
    {
        let game_globals = GameGlobals::decode(memory, HALO_GAME_GLOBALS_ADDR);
        if game_globals.game_options.is_valid() {
            Ok(game_globals)
        } else {
            Err(EngineError::GameGlobals)
        }
    }

    /// The name of the loaded map, or the empty string when no map is loaded
    /// or the stored name does not decode as text.
    pub fn get_map_name(&self) -> (r: String)
        ensures
            r@ == spec_map_name_chars(self@),
    {
        if self.map_loaded == 1 {
            let n: usize = self.map_name_nul_index();
            if n < self.game_options.map_name.len() {
                let mut prefix: Vec<u8> = Vec::new();
                let mut k: usize = 0;
                while k < n
                    invariant
                        k <= n,
                        n < self.game_options.map_name@.len(),
                        prefix@ == self.game_options.map_name@.take(k as int),
                    decreases n - k,
                {
                    prefix.push(self.game_options.map_name[k]);
                    k = k + 1;
                    proof {
                        assert(prefix@ =~= self.game_options.map_name@.take(k as int));
                    }
                }
                if let Some(name) = crate::memory::utf8_to_string(prefix) {
                    return name;
                }
            }
        }
        String::new()
    }

    /// Index of the first zero byte of the map-name field, or its length when
    /// it holds none.
    fn map_name_nul_index(&self) -> (n: usize)
        ensures
            n as int == nul_pos(self.game_options.map_name@, 0),
            n <= self.game_options.map_name@.len(),
    {
        let bs = &self.game_options.map_name;
        let len: usize = bs.len();
        let mut i: usize = 0;
        proof {
            crate::memory::lemma_nul_pos_ge(bs@, 0);
        }
        while i < len
            invariant
                i <= len,
                len == bs@.len(),
                bs@ == self.game_options.map_name@,
                nul_pos(bs@, 0) == nul_pos(bs@, i as int),
                nul_pos(bs@, i as int) >= i as int,
            decreases len - i,
        {
            if bs[i] == 0 {
                proof {
                    assert(byte_at(bs@, i as int) == 0);
                    assert(nul_pos(bs@, i as int) == i as int);
                }
                return i;
            }
            proof {
                assert(byte_at(bs@, i as int) != 0);
                assert(nul_pos(bs@, i as int) == nul_pos(bs@, i as int + 1));
                crate::memory::lemma_nul_pos_ge(bs@, i as int + 1);
            }
            i = i + 1;
        }
        proof {
            assert(byte_at(bs@, len as int) == 0);
            assert(nul_pos(bs@, len as int) == len as int);
        }
        len
    }
}

/// The game time globals.  No reliable validation predicate for them is
/// known, so they are accepted unconditionally.
#[derive(Clone, Copy, Debug, PartialEq, Eq, Structural)]
pub struct GameTimeGlobals {
    pub initalized: u8,
    pub active: u8,
    pub paused: u8,
    pub local_time: u32,
    pub elapsed: u16,
    /// Game speed as a raw 32-bit float pattern.
    pub speed_bits: u32,
    /// Leftover frame time as a raw 32-bit float pattern.
    pub leftover_dt_bits: u32,
}

/// The game time globals decoded at `addr`.
pub open spec fn spec_game_time_globals_at(mem: Seq<u8>, addr: int) -> GameTimeGlobals {
    GameTimeGlobals {
        initalized: byte_at(mem, addr),
        active: byte_at(mem, addr + 1),
        paused: byte_at(mem, addr + 2),
        local_time: u32_at(mem, addr + 12),
        elapsed: u16_at(mem, addr + 16),
        speed_bits: u32_at(mem, addr + 24),
        leftover_dt_bits: u32_at(mem, addr + 28),
    }
}

/// The game time globals decoded at their fixed address.
pub open spec fn spec_game_time_globals(mem: Seq<u8>) -> GameTimeGlobals {
    spec_game_time_globals_at(mem, HALO_GAME_TIME_GLOBALS as int)
}

impl GameTimeGlobals {
    /// Decodes the game time globals at `addr`.
    pub fn decode(memory: &Memory, addr: u32) -> (r: GameTimeGlobals)
        ensures
            r == spec_game_time_globals_at(memory@, addr as int),
    {
        GameTimeGlobals {
            initalized: memory.read_u8(addr as u64),
            active: memory.read_u8(addr as u64 + 1),
            paused: memory.read_u8(addr as u64 + 2),
            local_time: memory.read_u32(addr as u64 + 12),
            elapsed: memory.read_u16(addr as u64 + 16),
            speed_bits: memory.read_u32(addr as u64 + 24),
            leftover_dt_bits: memory.read_u32(addr as u64 + 28),
        }
    }

    /// Reads the game time globals from their fixed address.  They carry no
    /// known validation predicate and never fail.
    pub fn read_from(memory: &Memory) -> (r: Result<GameTimeGlobals, EngineError>)
        ensures
            r matches Ok(g) && g == spec_game_time_globals(memory@),
    {
        Ok(GameTimeGlobals::decode(memory, HALO_GAME_TIME_GLOBALS))
    }
}

/// The player globals: the local player seats and a few session flags.
#[derive(Clone, Debug)]
pub struct PlayersGlobals {
    pub unknown_1: i32,
    /// Handle of each local player seat.
    pub local_players: Vec<Datum>,
    /// Handle of the unit each local player will next control.
    pub local_dead_players: Vec<Datum>,
    pub local_player_count: u16,
    pub double_speed_ticks_remaining: u16,
    pub are_all_dead: u8,
    pub input_disabled: u8,
    pub unk_tag_index: u16,
    pub respawn_failure: u16,
    pub teleported: u8,
    pub unk_flags: u8,
}

/// Abstract content of `PlayersGlobals`.
pub ghost struct PlayersGlobalsView {
    pub unknown_1: i32,
    pub local_players: Seq<Datum>,
    pub local_dead_players: Seq<Datum>,
    pub local_player_count: u16,
    pub double_speed_ticks_remaining: u16,
    pub are_all_dead: u8,
    pub input_disabled: u8,
    pub unk_tag_index: u16,
    pub respawn_failure: u16,
    pub teleported: u8,
    pub unk_flags: u8,
}

impl View for PlayersGlobals {
    type V = PlayersGlobalsView;

    open spec fn view(&self) -> PlayersGlobalsView {
        PlayersGlobalsView {
            unknown_1: self.unknown_1,
            local_players: self.local_players@,
            local_dead_players: self.local_dead_players@,
            local_player_count: self.local_player_count,
            double_speed_ticks_remaining: self.double_speed_ticks_remaining,
            are_all_dead: self.are_all_dead,
            input_disabled: self.input_disabled,
            unk_tag_index: self.unk_tag_index,
            respawn_failure: self.respawn_failure,
            teleported: self.teleported,
            unk_flags: self.unk_flags,
        }
    }
}

/// The player globals decoded at `addr`; each seat array holds one handle per
/// local player seat.
pub open spec fn spec_players_globals_at(mem: Seq<u8>, addr: int) -> PlayersGlobalsView {
    PlayersGlobalsView {
        unknown_1: i32_at(mem, addr),
        local_players: Seq::new(
            MAXIMUM_NUMBER_OF_LOCAL_PLAYERS as nat,
            |j: int| Datum(u32_at(mem, addr + 4 + 4 * j)),
        ),
        local_dead_players: Seq::new(
            MAXIMUM_NUMBER_OF_LOCAL_PLAYERS as nat,
            |j: int| Datum(u32_at(mem, addr + 20 + 4 * j)),
        ),
        local_player_count: u16_at(mem, addr + 36),
        double_speed_ticks_remaining: u16_at(mem, addr + 38),
        are_all_dead: byte_at(mem, addr + 40),
        input_disabled: byte_at(mem, addr + 41),
        unk_tag_index: u16_at(mem, addr + 42),
        respawn_failure: u16_at(mem, addr + 44),
        teleported: byte_at(mem, addr + 46),
        unk_flags: byte_at(mem, addr + 47),
    }
}

/// The player globals decoded at their fixed address.
pub open spec fn spec_players_globals(mem: Seq<u8>) -> PlayersGlobalsView {
    spec_players_globals_at(mem, HALO_PLAYER_GLOBALS_ADDR as int)
}

impl PlayersGlobals {
    /// Decodes the player globals at `addr`.
    pub fn decode(memory: &Memory, addr: u32) -> (r: PlayersGlobals)
        ensures
            r@ == spec_players_globals_at(memory@, addr as int),
    {
        let mut local_players: Vec<Datum> = Vec::new();
        let mut j: usize = 0;
        while j < MAXIMUM_NUMBER_OF_LOCAL_PLAYERS
            invariant
                j <= MAXIMUM_NUMBER_OF_LOCAL_PLAYERS,
                local_players@ == Seq::new(
                    j as nat,
                    |k: int| Datum(u32_at(memory@, addr as int + 4 + 4 * k)),
                ),
            decreases MAXIMUM_NUMBER_OF_LOCAL_PLAYERS - j,
        {
            local_players.push(Datum::from_raw(memory.read_u32(addr as u64 + 4 + 4 * j as u64)));
            j = j + 1;
            proof {
                assert(local_players@ =~= Seq::new(
                    j as nat,
                    |k: int| Datum(u32_at(memory@, addr as int + 4 + 4 * k)),
                ));
            }
        }
        let mut local_dead_players: Vec<Datum> = Vec::new();
        let mut j: usize = 0;
        while j < MAXIMUM_NUMBER_OF_LOCAL_PLAYERS
            invariant
                j <= MAXIMUM_NUMBER_OF_LOCAL_PLAYERS,
                local_dead_players@ == Seq::new(
                    j as nat,
                    |k: int| Datum(u32_at(memory@, addr as int + 20 + 4 * k)),
                ),
            decreases MAXIMUM_NUMBER_OF_LOCAL_PLAYERS - j,
        {
            local_dead_players.push(
                Datum::from_raw(memory.read_u32(addr as u64 + 20 + 4 * j as u64)),
            );
            j = j + 1;
            proof {
                assert(local_dead_players@ =~= Seq::new(
                    j as nat,
                    |k: int| Datum(u32_at(memory@, addr as int + 20 + 4 * k)),
                ));
            }
        }
        PlayersGlobals {
            unknown_1: memory.read_i32(addr as u64),
            local_players,
            local_dead_players,
            local_player_count: memory.read_u16(addr as u64 + 36),
            double_speed_ticks_remaining: memory.read_u16(addr as u64 + 38),
            are_all_dead: memory.read_u8(addr as u64 + 40),
            input_disabled: memory.read_u8(addr as u64 + 41),
            unk_tag_index: memory.read_u16(addr as u64 + 42),
            respawn_failure: memory.read_u16(addr as u64 + 44),
            teleported: memory.read_u8(addr as u64 + 46),
            unk_flags: memory.read_u8(addr as u64 + 47),
        }
    }

    /// Reads the player globals from their fixed address.  They carry no
    /// known validation predicate and never fail.
    pub fn read_from(memory: &Memory) -> (r: Result<PlayersGlobals, EngineError>)
        ensures
            r matches Ok(g) && g@ == spec_players_globals(memory@),
    {
        Ok(PlayersGlobals::decode(memory, HALO_PLAYER_GLOBALS_ADDR))
    }
}

/// One decoded player pool slot: identity, display name, and the handles of
/// the unit the player controls now and controlled last.
#[derive(Clone, Debug)]
pub struct PlayerDataEntry {
    pub id: u16,
    pub local_player_index: u16,
    /// Display name as sixteen-bit code units.
    pub player_name: Vec<u16>,
    /// Handle of the unit this player currently controls.
    pub slave_unit_index: Datum,
    /// Handle of the unit this player controlled before.
    pub last_slave_unit_index: Datum,
}

/// Abstract content of `PlayerDataEntry`.
pub ghost struct PlayerDataEntryView {
    pub id: u16,
    pub local_player_index: u16,
    pub player_name: Seq<u16>,
    pub slave_unit_index: Datum,
    pub last_slave_unit_index: Datum,
}

impl View for PlayerDataEntry {
    type V = PlayerDataEntryView;

    open spec fn view(&self) -> PlayerDataEntryView {
        PlayerDataEntryView {
            id: self.id,
            local_player_index: self.local_player_index,
            player_name: self.player_name@,
            slave_unit_index: self.slave_unit_index,
            last_slave_unit_index: self.last_slave_unit_index,
        }
    }
}

/// The player record decoded at `addr`; the name field holds twelve code units.
pub open spec fn spec_player_data_entry_at(mem: Seq<u8>, addr: int) -> PlayerDataEntryView {
    PlayerDataEntryView {
        id: u16_at(mem, addr),
        local_player_index: u16_at(mem, addr + 2),
        player_name: Seq::new(12, |j: int| u16_at(mem, addr + 4 + 2 * j)),
        slave_unit_index: Datum(u32_at(mem, addr + 52)),
        last_slave_unit_index: Datum(u32_at(mem, addr + 56)),
    }
}

impl crate::entity::SlotRecord for PlayerDataEntry {
    open spec fn spec_decode(mem: Seq<u8>, addr: int) -> PlayerDataEntryView {
        spec_player_data_entry_at(mem, addr)
    }

    fn decode(memory: &Memory, addr: u64) -> (r: Self) {
        let mut player_name: Vec<u16> = Vec::new();
        let mut j: usize = 0;
        while j < 12
            invariant
                j <= 12,
                player_name@ == Seq::new(
                    j as nat,
                    |k: int| u16_at(memory@, addr as int + 4 + 2 * k),
                ),
            decreases 12 - j,
        {
            let off: u64 = 4 + 2 * j as u64;
            player_name.push(memory.read_u16_off(addr, off));
            j = j + 1;
            proof {
                assert(player_name@ =~= Seq::new(
                    j as nat,
                    |k: int| u16_at(memory@, addr as int + 4 + 2 * k),
                ));
            }
        }
        PlayerDataEntry {
            id: memory.read_u16(addr),
            local_player_index: memory.read_u16_off(addr, 2),
            player_name,
            slave_unit_index: Datum::from_raw(memory.read_u32_off(addr, 52)),
            last_slave_unit_index: Datum::from_raw(memory.read_u32_off(addr, 56)),
        }
    }
}

/// One descriptor of the tag table: an asset's classification, its tag index,
/// and the raw pointers to its path string and data.
#[derive(Clone, Copy, Debug, PartialEq, Eq, Structural)]
pub struct TagEntry {
    pub tag_class: u32,
    pub tag_class_secondary: u32,
    pub tag_class_tertiary: u32,
    pub tag_index: u32,
    pub tag_path_ptr: u32,
    pub tag_data_ptr: u32,
}

/// Byte size of one tag descriptor in the observed process.
pub const TAG_ENTRY_SIZE: u32 = 32;

/// The tag descriptor decoded at `addr`.
pub open spec fn spec_tag_entry_at(mem: Seq<u8>, addr: int) -> TagEntry {
    TagEntry {
        tag_class: u32_at(mem, addr),
        tag_class_secondary: u32_at(mem, addr + 4),
        tag_class_tertiary: u32_at(mem, addr + 8),
        tag_index: u32_at(mem, addr + 12),
        tag_path_ptr: u32_at(mem, addr + 16),
        tag_data_ptr: u32_at(mem, addr + 20),
    }
}

impl TagEntry {
    /// Decodes a tag descriptor at `addr`.
    pub fn decode(memory: &Memory, addr: u64) -> (r: TagEntry)
        ensures
            r == spec_tag_entry_at(memory@, addr as int),
    {
        TagEntry {
            tag_class: memory.read_u32(addr),
            tag_class_secondary: memory.read_u32_off(addr, 4),
            tag_class_tertiary: memory.read_u32_off(addr, 8),
            tag_index: memory.read_u32_off(addr, 12),
            tag_path_ptr: memory.read_u32_off(addr, 16),
            tag_data_ptr: memory.read_u32_off(addr, 20),
        }
    }
}

/// The tag header: location and count of the tag descriptors, plus model data
/// bookkeeping and a footer signature.
#[derive(Clone, Copy, Debug, PartialEq, Eq, Structural)]
pub struct TagHeader {
    pub tag_array_ptr: u32,
    pub tag_index: u32,
    pub map_id: u32,
    pub tag_count: u32,
    pub vertex_count: u32,
    pub vertex_offset: u32,
    pub index_count: u32,
    pub index_offset: u32,
    pub model_data_size: u32,
    /// Footer word; an intact header carries `RNCS`.
    pub footer: u32,
}

/// The tag header decoded at `addr`.
pub open spec fn spec_tag_header_at(mem: Seq<u8>, addr: int) -> TagHeader {
    TagHeader {
        tag_array_ptr: u32_at(mem, addr),
        tag_index: u32_at(mem, addr + 4),
        map_id: u32_at(mem, addr + 8),
        tag_count: u32_at(mem, addr + 12),
        vertex_count: u32_at(mem, addr + 16),
        vertex_offset: u32_at(mem, addr + 20),
        index_count: u32_at(mem, addr + 24),
        index_offset: u32_at(mem, addr + 28),
        model_data_size: u32_at(mem, addr + 32),
        footer: u32_at(mem, addr + 36),
    }
}

/// The tag header decoded at its fixed address.
pub open spec fn spec_tag_header(mem: Seq<u8>) -> TagHeader {
    spec_tag_header_at(mem, HALO_TAG_HEADER_ADDR as int)
}

impl TagHeader {
    /// Whether the header is intact: its footer word is the known constant.
    pub open spec fn spec_is_valid(self) -> bool {
        self.footer == RNCS
    }

    /// Whether the header is intact: its footer word is the known constant.
    pub fn is_valid(&self) -> (r: bool)
        ensures
            r == self.spec_is_valid(),
    {
        self.footer == RNCS
    }

    /// Decodes a tag header at `addr`.
    pub fn decode(memory: &Memory, addr: u32) -> (r: TagHeader)
        ensures
            r == spec_tag_header_at(memory@, addr as int),
    {
        TagHeader {
            tag_array_ptr: memory.read_u32(addr as u64),
            tag_index: memory.read_u32(addr as u64 + 4),
            map_id: memory.read_u32(addr as u64 + 8),
            tag_count: memory.read_u32(addr as u64 + 12),
            vertex_count: memory.read_u32(addr as u64 + 16),
            vertex_offset: memory.read_u32(addr as u64 + 20),
            index_count: memory.read_u32(addr as u64 + 24),
            index_offset: memory.read_u32(addr as u64 + 28),
            model_data_size: memory.read_u32(addr as u64 + 32),
            footer: memory.read_u32(addr as u64 + 36),
        }
    }

    /// Reads the tag header from its fixed address, accepting it only when
    /// its footer signature is intact.
    pub fn read_from(memory: &Memory) -> (r: Result<TagHeader, EngineError>)
        ensures
            r is Ok <==> spec_tag_header(memory@).spec_is_valid(),
            r matches Ok(h) ==> h == spec_tag_header(memory@),
            r matches Err(e) ==> e == EngineError::TagHeader,
    {
        let tag_header = TagHeader::decode(memory, HALO_TAG_HEADER_ADDR);
        if tag_header.is_valid() {
            Ok(tag_header)
        } else {
            Err(EngineError::TagHeader)
        }
    }
}

/// One decoded object pool slot: the slot's identifier, its record type, and
/// the raw address of the object body it points at.
#[derive(Clone, Copy, Debug, PartialEq, Eq, Structural)]
pub struct ObjectHeaderEntry {
    pub id: u16,
    pub unk_2: u8,
    pub data_type: u8,
    pub unknown_2: u16,
    pub data_sizeof: u16,
    pub object_address: u32,
}

impl View for ObjectHeaderEntry {
    type V = ObjectHeaderEntry;

    open spec fn view(&self) -> ObjectHeaderEntry {
        *self
    }
}

/// The object pool slot decoded at `addr`.
pub open spec fn spec_object_header_entry_at(mem: Seq<u8>, addr: int) -> ObjectHeaderEntry {
    ObjectHeaderEntry {
        id: u16_at(mem, addr),
        unk_2: byte_at(mem, addr + 2),
        data_type: byte_at(mem, addr + 3),
        unknown_2: u16_at(mem, addr + 4),
        data_sizeof: u16_at(mem, addr + 6),
        object_address: u32_at(mem, addr + 8),
    }
}

impl crate::entity::SlotRecord for ObjectHeaderEntry {
    open spec fn spec_decode(mem: Seq<u8>, addr: int) -> ObjectHeaderEntry {
        spec_object_header_entry_at(mem, addr)
    }

    fn decode(memory: &Memory, addr: u64) -> (r: Self) {
        ObjectHeaderEntry {
            id: memory.read_u16(addr),
            unk_2: memory.read_u8_off(addr, 2),
            data_type: memory.read_u8_off(addr, 3),
            unknown_2: memory.read_u16_off(addr, 4),
            data_sizeof: memory.read_u16_off(addr, 6),
            object_address: memory.read_u32_off(addr, 8),
        }
    }
}

/// The guard structure found immediately before a genuine object body, with
/// its linkage pointers.
#[derive(Clone, Copy, Debug, PartialEq, Eq, Structural)]
pub struct ObjectListHeader {
    /// Leading guard word; a genuine body is preceded by `DEAH` here.
    pub header_head: u32,
    pub tag_id: u32,
    pub ptr_a: u32,
    pub ptr_next_object: u32,
    pub ptr_previous_object: u32,
    /// Trailing guard word; a genuine body is preceded by `LIAT` here.
    pub header_tail: u32,
}

/// Byte size of the guard structure before an object body.
pub const OBJECT_LIST_HEADER_SIZE: u32 = 24;

/// The guard structure decoded at `addr`.
pub open spec fn spec_object_list_header_at(mem: Seq<u8>, addr: int) -> ObjectListHeader {
    ObjectListHeader {
        header_head: u32_at(mem, addr),
        tag_id: u32_at(mem, addr + 4),
        ptr_a: u32_at(mem, addr + 8),
        ptr_next_object: u32_at(mem, addr + 12),
        ptr_previous_object: u32_at(mem, addr + 16),
        header_tail: u32_at(mem, addr + 20),
    }
}

impl ObjectListHeader {
    /// Decodes the guard structure at `addr`.
    pub fn decode(memory: &Memory, addr: u32) -> (r: ObjectListHeader)
        ensures
            r == spec_object_list_header_at(memory@, addr as int),
    {
        ObjectListHeader {
            header_head: memory.read_u32(addr as u64),
            tag_id: memory.read_u32(addr as u64 + 4),
            ptr_a: memory.read_u32(addr as u64 + 8),
            ptr_next_object: memory.read_u32(addr as u64 + 12),
            ptr_previous_object: memory.read_u32(addr as u64 + 16),
            header_tail: memory.read_u32(addr as u64 + 20),
        }
    }
}

/// One decoded object record: its tag, position, type, and linkage handles.
/// Position coordinates are carried as raw 32-bit float patterns.
#[derive(Clone, Copy, Debug, PartialEq, Eq, Structural)]
pub struct Object {
    pub tag_index: u32,
    pub flags: u32,
    pub position_x_bits: u32,
    pub position_y_bits: u32,
    pub position_z_bits: u32,
    pub object_type: i16,
    pub next_object_index: Datum,
    pub parent_object_index: Datum,
}

impl View for Object {
    type V = Object;

    open spec fn view(&self) -> Object {
        *self
    }
}

/// The object record decoded at `addr`.
pub open spec fn spec_object_at(mem: Seq<u8>, addr: int) -> Object {
    Object {
        tag_index: u32_at(mem, addr),
        flags: u32_at(mem, addr + 4),
        position_x_bits: u32_at(mem, addr + 12),
        position_y_bits: u32_at(mem, addr + 16),
        position_z_bits: u32_at(mem, addr + 20),
        object_type: i16_at(mem, addr + 100),
        next_object_index: Datum(u32_at(mem, addr + 196)),
        parent_object_index: Datum(u32_at(mem, addr + 204)),
    }
}

impl Object {
    /// Decodes an object record at `addr`.
    pub fn decode(memory: &Memory, addr: u32) -> (r: Object)
        ensures
            r == spec_object_at(memory@, addr as int),
    {
        Object {
            tag_index: memory.read_u32(addr as u64),
            flags: memory.read_u32(addr as u64 + 4),
            position_x_bits: memory.read_u32(addr as u64 + 12),
            position_y_bits: memory.read_u32(addr as u64 + 16),
            position_z_bits: memory.read_u32(addr as u64 + 20),
            object_type: memory.read_i16(addr as u64 + 100),
            next_object_index: Datum::from_raw(memory.read_u32(addr as u64 + 196)),
            parent_object_index: Datum::from_raw(memory.read_u32(addr as u64 + 204)),
        }
    }
}

/// The four-character tag class naming an object record type.
pub open spec fn spec_object_type_string(data_type: u8) -> Seq<char> {
    if data_type == 0 {
        "bipd"@
    } else if data_type == 1 {
        "vehi"@
    } else if data_type == 2 {
        "weap"@
    } else if data_type == 3 {
        "eqip"@
    } else if data_type == 4 {
        "garb"@
    } else if data_type == 5 {
        "proj"@
    } else if data_type == 6 {
        "scen"@
    } else if data_type == 7 {
        "mach"@
    } else if data_type == 8 {
        "ctrl"@
    } else if data_type == 9 {
        "lifi"@
    } else if data_type == 11 {
        "ssce"@
    } else {
        "UNKNOWN"@
    }
}

/// The four-character tag class naming an object record type.
pub fn object_type_string(data_type: u8) -> (r: &'static str)
    ensures
        r@ == spec_object_type_string(data_type),
{
    match data_type {
        0 => "bipd",
        1 => "vehi",
        2 => "weap",
        3 => "eqip",
        4 => "garb",
        5 => "proj",
        6 => "scen",
        7 => "mach",
        8 => "ctrl",
        9 => "lifi",
        11 => "ssce",
        _ => "UNKNOWN",
    }
}

} // verus!
