//! Client-to-server packets of 1.20.1 and their aggregation.

pub mod handshake;
pub mod status;
pub mod login;
pub mod play;

use vstd::prelude::*;

use crate::codec::Wire;
use crate::error::DecodeError;
use crate::packet::lemma_header_roundtrip;
use crate::state::State;
use crate::varint::{spec_varint_encode, VarInt};
use handshake::C2SHandshake;
use status::{C2SPing, C2SStatusRequest};
use login::{C2SEncryptionResponse, C2SLoginPluginResponse, C2SLoginStart};
use play::{C2SAcceptTeleportation, C2SChangeDifficulty, C2SChatAck, C2SChatCommand, C2SChatMessage, C2SChatSessionUpdate, C2SClientCommand, C2SClientInformation, C2SCommandSuggestion, C2SContainerClick, C2SContainerClose, C2SCustomPayload, C2SEditBook, C2SEnchantItem, C2SGenerateStructure, C2SInteract, C2SKeepAlive, C2SLockDifficulty, C2SMoveVehicle, C2SPaddleBoat, C2SPickItem, C2SPlaceRecipe, C2SPlayerAbilities, C2SPlayerAction, C2SPlayerCommand, C2SPlayerInput, C2SPlayerPos, C2SPlayerPosRot, C2SPlayerRot, C2SPlayerStatusOnly, C2SPong, C2SQueryBlockNbt, C2SQueryEntityNbt, C2SRecipeBookChangeSettings, C2SRecipeBookSeenRecipe, C2SRenameItem, C2SResourcePack, C2SSeenAdvancements, C2SSelectTrade, C2SSetBeacon, C2SSetCarriedItem, C2SSetCommandBlock, C2SSetCommandMinecart, C2SSetCreativeModeSlot, C2SSetJigsawBlock, C2SSetStructureBlock, C2SSignUpdate, C2SSpectate, C2SSwing, C2SUseItem, C2SUseItemOn};

verus! {

/// The client-to-server packets of protocol 763 (MC 1.20.1).
#[derive(Debug)]
pub enum C2SPacket {
    Handshake(C2SHandshake),
    StatusRequest(C2SStatusRequest),
    Ping(C2SPing),
    LoginStart(C2SLoginStart),
    EncryptionResponse(C2SEncryptionResponse),
    LoginPluginResponse(C2SLoginPluginResponse),
    AcceptTeleportation(C2SAcceptTeleportation),
    QueryBlockNbt(C2SQueryBlockNbt),
    ChangeDifficulty(C2SChangeDifficulty),
    ChatAck(C2SChatAck),
    ChatCommand(C2SChatCommand),
    ChatMessage(C2SChatMessage),
    ChatSessionUpdate(C2SChatSessionUpdate),
    ClientCommand(C2SClientCommand),
    ClientInformation(C2SClientInformation),
    CommandSuggestion(C2SCommandSuggestion),
    EnchantItem(C2SEnchantItem),
    ContainerClick(C2SContainerClick),
    ContainerClose(C2SContainerClose),
    CustomPayload(C2SCustomPayload),
    EditBook(C2SEditBook),
    QueryEntityNbt(C2SQueryEntityNbt),
    Interact(C2SInteract),
    GenerateStructure(C2SGenerateStructure),
    KeepAlive(C2SKeepAlive),
    LockDifficulty(C2SLockDifficulty),
    PlayerPos(C2SPlayerPos),
    PlayerPosRot(C2SPlayerPosRot),
    PlayerRot(C2SPlayerRot),
    PlayerStatusOnly(C2SPlayerStatusOnly),
    MoveVehicle(C2SMoveVehicle),
    PaddleBoat(C2SPaddleBoat),
    PickItem(C2SPickItem),
    PlaceRecipe(C2SPlaceRecipe),
    PlayerAbilities(C2SPlayerAbilities),
    PlayerAction(C2SPlayerAction),
    PlayerCommand(C2SPlayerCommand),
    PlayerInput(C2SPlayerInput),
    Pong(C2SPong),
    RecipeBookChangeSettings(C2SRecipeBookChangeSettings),
    RecipeBookSeenRecipe(C2SRecipeBookSeenRecipe),
    RenameItem(C2SRenameItem),
    ResourcePack(C2SResourcePack),
    SeenAdvancements(C2SSeenAdvancements),
    SelectTrade(C2SSelectTrade),
    SetBeacon(C2SSetBeacon),
    SetCarriedItem(C2SSetCarriedItem),
    SetCommandBlock(C2SSetCommandBlock),
    SetCommandMinecart(C2SSetCommandMinecart),
    SetCreativeModeSlot(C2SSetCreativeModeSlot),
    SetJigsawBlock(C2SSetJigsawBlock),
    SetStructureBlock(C2SSetStructureBlock),
    SignUpdate(C2SSignUpdate),
    Swing(C2SSwing),
    Spectate(C2SSpectate),
    UseItemOn(C2SUseItemOn),
    UseItem(C2SUseItem),
}

/// The models of the variants of [`C2SPacket`].
pub ghost enum C2SPacketModel {
    Handshake(<C2SHandshake as Wire>::Model),
    StatusRequest(<C2SStatusRequest as Wire>::Model),
    Ping(<C2SPing as Wire>::Model),
    LoginStart(<C2SLoginStart as Wire>::Model),
    EncryptionResponse(<C2SEncryptionResponse as Wire>::Model),
    LoginPluginResponse(<C2SLoginPluginResponse as Wire>::Model),
    AcceptTeleportation(<C2SAcceptTeleportation as Wire>::Model),
    QueryBlockNbt(<C2SQueryBlockNbt as Wire>::Model),
    ChangeDifficulty(<C2SChangeDifficulty as Wire>::Model),
    ChatAck(<C2SChatAck as Wire>::Model),
    ChatCommand(<C2SChatCommand as Wire>::Model),
    ChatMessage(<C2SChatMessage as Wire>::Model),
    ChatSessionUpdate(<C2SChatSessionUpdate as Wire>::Model),
    ClientCommand(<C2SClientCommand as Wire>::Model),
    ClientInformation(<C2SClientInformation as Wire>::Model),
    CommandSuggestion(<C2SCommandSuggestion as Wire>::Model),
    EnchantItem(<C2SEnchantItem as Wire>::Model),
    ContainerClick(<C2SContainerClick as Wire>::Model),
    ContainerClose(<C2SContainerClose as Wire>::Model),
    CustomPayload(<C2SCustomPayload as Wire>::Model),
    EditBook(<C2SEditBook as Wire>::Model),
    QueryEntityNbt(<C2SQueryEntityNbt as Wire>::Model),
    Interact(<C2SInteract as Wire>::Model),
    GenerateStructure(<C2SGenerateStructure as Wire>::Model),
    KeepAlive(<C2SKeepAlive as Wire>::Model),
    LockDifficulty(<C2SLockDifficulty as Wire>::Model),
    PlayerPos(<C2SPlayerPos as Wire>::Model),
    PlayerPosRot(<C2SPlayerPosRot as Wire>::Model),
    PlayerRot(<C2SPlayerRot as Wire>::Model),
    PlayerStatusOnly(<C2SPlayerStatusOnly as Wire>::Model),
    MoveVehicle(<C2SMoveVehicle as Wire>::Model),
    PaddleBoat(<C2SPaddleBoat as Wire>::Model),
    PickItem(<C2SPickItem as Wire>::Model),
    PlaceRecipe(<C2SPlaceRecipe as Wire>::Model),
    PlayerAbilities(<C2SPlayerAbilities as Wire>::Model),
    PlayerAction(<C2SPlayerAction as Wire>::Model),
    PlayerCommand(<C2SPlayerCommand as Wire>::Model),
    PlayerInput(<C2SPlayerInput as Wire>::Model),
    Pong(<C2SPong as Wire>::Model),
    RecipeBookChangeSettings(<C2SRecipeBookChangeSettings as Wire>::Model),
    RecipeBookSeenRecipe(<C2SRecipeBookSeenRecipe as Wire>::Model),
    RenameItem(<C2SRenameItem as Wire>::Model),
    ResourcePack(<C2SResourcePack as Wire>::Model),
    SeenAdvancements(<C2SSeenAdvancements as Wire>::Model),
    SelectTrade(<C2SSelectTrade as Wire>::Model),
    SetBeacon(<C2SSetBeacon as Wire>::Model),
    SetCarriedItem(<C2SSetCarriedItem as Wire>::Model),
    SetCommandBlock(<C2SSetCommandBlock as Wire>::Model),
    SetCommandMinecart(<C2SSetCommandMinecart as Wire>::Model),
    SetCreativeModeSlot(<C2SSetCreativeModeSlot as Wire>::Model),
    SetJigsawBlock(<C2SSetJigsawBlock as Wire>::Model),
    SetStructureBlock(<C2SSetStructureBlock as Wire>::Model),
    SignUpdate(<C2SSignUpdate as Wire>::Model),
    Swing(<C2SSwing as Wire>::Model),
    Spectate(<C2SSpectate as Wire>::Model),
    UseItemOn(<C2SUseItemOn as Wire>::Model),
    UseItem(<C2SUseItem as Wire>::Model),
}

/// A [`C2SHandshake`] is the [`C2SPacket::Handshake`] packet.
impl From<C2SHandshake> for C2SPacket {
    fn from(p: C2SHandshake) -> (r: C2SPacket) {
        C2SPacket::Handshake(p)
    }
}

impl vstd::std_specs::convert::FromSpecImpl<C2SHandshake> for C2SPacket {
    open spec fn obeys_from_spec() -> bool {
        true
    }

    open spec fn from_spec(p: C2SHandshake) -> C2SPacket {
        C2SPacket::Handshake(p)
    }
}

/// A [`C2SStatusRequest`] is the [`C2SPacket::StatusRequest`] packet.
impl From<C2SStatusRequest> for C2SPacket {
    fn from(p: C2SStatusRequest) -> (r: C2SPacket) {
        C2SPacket::StatusRequest(p)
    }
}

impl vstd::std_specs::convert::FromSpecImpl<C2SStatusRequest> for C2SPacket {
    open spec fn obeys_from_spec() -> bool {
        true
    }

    open spec fn from_spec(p: C2SStatusRequest) -> C2SPacket {
        C2SPacket::StatusRequest(p)
    }
}

/// A [`C2SPing`] is the [`C2SPacket::Ping`] packet.
impl From<C2SPing> for C2SPacket {
    fn from(p: C2SPing) -> (r: C2SPacket) {
        C2SPacket::Ping(p)
    }
}

impl vstd::std_specs::convert::FromSpecImpl<C2SPing> for C2SPacket {
    open spec fn obeys_from_spec() -> bool {
        true
    }

    open spec fn from_spec(p: C2SPing) -> C2SPacket {
        C2SPacket::Ping(p)
    }
}

/// A [`C2SLoginStart`] is the [`C2SPacket::LoginStart`] packet.
impl From<C2SLoginStart> for C2SPacket {
    fn from(p: C2SLoginStart) -> (r: C2SPacket) {
        C2SPacket::LoginStart(p)
    }
}

impl vstd::std_specs::convert::FromSpecImpl<C2SLoginStart> for C2SPacket {
    open spec fn obeys_from_spec() -> bool {
        true
    }

    open spec fn from_spec(p: C2SLoginStart) -> C2SPacket {
        C2SPacket::LoginStart(p)
    }
}

/// A [`C2SEncryptionResponse`] is the [`C2SPacket::EncryptionResponse`] packet.
impl From<C2SEncryptionResponse> for C2SPacket {
    fn from(p: C2SEncryptionResponse) -> (r: C2SPacket) {
        C2SPacket::EncryptionResponse(p)
    }
}

impl vstd::std_specs::convert::FromSpecImpl<C2SEncryptionResponse> for C2SPacket {
    open spec fn obeys_from_spec() -> bool {
        true
    }

    open spec fn from_spec(p: C2SEncryptionResponse) -> C2SPacket {
        C2SPacket::EncryptionResponse(p)
    }
}

/// A [`C2SLoginPluginResponse`] is the [`C2SPacket::LoginPluginResponse`] packet.
impl From<C2SLoginPluginResponse> for C2SPacket {
    fn from(p: C2SLoginPluginResponse) -> (r: C2SPacket) {
        C2SPacket::LoginPluginResponse(p)
    }
}

impl vstd::std_specs::convert::FromSpecImpl<C2SLoginPluginResponse> for C2SPacket {
    open spec fn obeys_from_spec() -> bool {
        true
    }

    open spec fn from_spec(p: C2SLoginPluginResponse) -> C2SPacket {
        C2SPacket::LoginPluginResponse(p)
    }
}

/// A [`C2SAcceptTeleportation`] is the [`C2SPacket::AcceptTeleportation`] packet.
impl From<C2SAcceptTeleportation> for C2SPacket {
    fn from(p: C2SAcceptTeleportation) -> (r: C2SPacket) {
        C2SPacket::AcceptTeleportation(p)
    }
}

impl vstd::std_specs::convert::FromSpecImpl<C2SAcceptTeleportation> for C2SPacket {
    open spec fn obeys_from_spec() -> bool {
        true
    }

    open spec fn from_spec(p: C2SAcceptTeleportation) -> C2SPacket {
        C2SPacket::AcceptTeleportation(p)
    }
}

/// A [`C2SQueryBlockNbt`] is the [`C2SPacket::QueryBlockNbt`] packet.
impl From<C2SQueryBlockNbt> for C2SPacket {
    fn from(p: C2SQueryBlockNbt) -> (r: C2SPacket) {
        C2SPacket::QueryBlockNbt(p)
    }
}

impl vstd::std_specs::convert::FromSpecImpl<C2SQueryBlockNbt> for C2SPacket {
    open spec fn obeys_from_spec() -> bool {
        true
    }

    open spec fn from_spec(p: C2SQueryBlockNbt) -> C2SPacket {
        C2SPacket::QueryBlockNbt(p)
    }
}

/// A [`C2SChangeDifficulty`] is the [`C2SPacket::ChangeDifficulty`] packet.
impl From<C2SChangeDifficulty> for C2SPacket {
    fn from(p: C2SChangeDifficulty) -> (r: C2SPacket) {
        C2SPacket::ChangeDifficulty(p)
    }
}

impl vstd::std_specs::convert::FromSpecImpl<C2SChangeDifficulty> for C2SPacket {
    open spec fn obeys_from_spec() -> bool {
        true
    }

    open spec fn from_spec(p: C2SChangeDifficulty) -> C2SPacket {
        C2SPacket::ChangeDifficulty(p)
    }
}

/// A [`C2SChatAck`] is the [`C2SPacket::ChatAck`] packet.
impl From<C2SChatAck> for C2SPacket {
    fn from(p: C2SChatAck) -> (r: C2SPacket) {
        C2SPacket::ChatAck(p)
    }
}

impl vstd::std_specs::convert::FromSpecImpl<C2SChatAck> for C2SPacket {
    open spec fn obeys_from_spec() -> bool {
        true
    }

    open spec fn from_spec(p: C2SChatAck) -> C2SPacket {
        C2SPacket::ChatAck(p)
    }
}

/// A [`C2SChatCommand`] is the [`C2SPacket::ChatCommand`] packet.
impl From<C2SChatCommand> for C2SPacket {
    fn from(p: C2SChatCommand) -> (r: C2SPacket) {
        C2SPacket::ChatCommand(p)
    }
}

impl vstd::std_specs::convert::FromSpecImpl<C2SChatCommand> for C2SPacket {
    open spec fn obeys_from_spec() -> bool {
        true
    }

    open spec fn from_spec(p: C2SChatCommand) -> C2SPacket {
        C2SPacket::ChatCommand(p)
    }
}

/// A [`C2SChatMessage`] is the [`C2SPacket::ChatMessage`] packet.
impl From<C2SChatMessage> for C2SPacket {
    fn from(p: C2SChatMessage) -> (r: C2SPacket) {
        C2SPacket::ChatMessage(p)
    }
}

impl vstd::std_specs::convert::FromSpecImpl<C2SChatMessage> for C2SPacket {
    open spec fn obeys_from_spec() -> bool {
        true
    }

    open spec fn from_spec(p: C2SChatMessage) -> C2SPacket {
        C2SPacket::ChatMessage(p)
    }
}

/// A [`C2SChatSessionUpdate`] is the [`C2SPacket::ChatSessionUpdate`] packet.
impl From<C2SChatSessionUpdate> for C2SPacket {
    fn from(p: C2SChatSessionUpdate) -> (r: C2SPacket) {
        C2SPacket::ChatSessionUpdate(p)
    }
}

impl vstd::std_specs::convert::FromSpecImpl<C2SChatSessionUpdate> for C2SPacket {
    open spec fn obeys_from_spec() -> bool {
        true
    }

    open spec fn from_spec(p: C2SChatSessionUpdate) -> C2SPacket {
        C2SPacket::ChatSessionUpdate(p)
    }
}

/// A [`C2SClientCommand`] is the [`C2SPacket::ClientCommand`] packet.
impl From<C2SClientCommand> for C2SPacket {
    fn from(p: C2SClientCommand) -> (r: C2SPacket) {
        C2SPacket::ClientCommand(p)
    }
}

impl vstd::std_specs::convert::FromSpecImpl<C2SClientCommand> for C2SPacket {
    open spec fn obeys_from_spec() -> bool {
        true
    }

    open spec fn from_spec(p: C2SClientCommand) -> C2SPacket {
        C2SPacket::ClientCommand(p)
    }
}

/// A [`C2SClientInformation`] is the [`C2SPacket::ClientInformation`] packet.
impl From<C2SClientInformation> for C2SPacket {
    fn from(p: C2SClientInformation) -> (r: C2SPacket) {
        C2SPacket::ClientInformation(p)
    }
}

impl vstd::std_specs::convert::FromSpecImpl<C2SClientInformation> for C2SPacket {
    open spec fn obeys_from_spec() -> bool {
        true
    }

    open spec fn from_spec(p: C2SClientInformation) -> C2SPacket {
        C2SPacket::ClientInformation(p)
    }
}

/// A [`C2SCommandSuggestion`] is the [`C2SPacket::CommandSuggestion`] packet.
impl From<C2SCommandSuggestion> for C2SPacket {
    fn from(p: C2SCommandSuggestion) -> (r: C2SPacket) {
        C2SPacket::CommandSuggestion(p)
    }
}

impl vstd::std_specs::convert::FromSpecImpl<C2SCommandSuggestion> for C2SPacket {
    open spec fn obeys_from_spec() -> bool {
        true
    }

    open spec fn from_spec(p: C2SCommandSuggestion) -> C2SPacket {
        C2SPacket::CommandSuggestion(p)
    }
}

/// A [`C2SEnchantItem`] is the [`C2SPacket::EnchantItem`] packet.
impl From<C2SEnchantItem> for C2SPacket {
    fn from(p: C2SEnchantItem) -> (r: C2SPacket) {
        C2SPacket::EnchantItem(p)
    }
}

impl vstd::std_specs::convert::FromSpecImpl<C2SEnchantItem> for C2SPacket {
    open spec fn obeys_from_spec() -> bool {
        true
    }

    open spec fn from_spec(p: C2SEnchantItem) -> C2SPacket {
        C2SPacket::EnchantItem(p)
    }
}

/// A [`C2SContainerClick`] is the [`C2SPacket::ContainerClick`] packet.
impl From<C2SContainerClick> for C2SPacket {
    fn from(p: C2SContainerClick) -> (r: C2SPacket) {
        C2SPacket::ContainerClick(p)
    }
}

impl vstd::std_specs::convert::FromSpecImpl<C2SContainerClick> for C2SPacket {
    open spec fn obeys_from_spec() -> bool {
        true
    }

    open spec fn from_spec(p: C2SContainerClick) -> C2SPacket {
        C2SPacket::ContainerClick(p)
    }
}

/// A [`C2SContainerClose`] is the [`C2SPacket::ContainerClose`] packet.
impl From<C2SContainerClose> for C2SPacket {
    fn from(p: C2SContainerClose) -> (r: C2SPacket) {
        C2SPacket::ContainerClose(p)
    }
}

impl vstd::std_specs::convert::FromSpecImpl<C2SContainerClose> for C2SPacket {
    open spec fn obeys_from_spec() -> bool {
        true
    }

    open spec fn from_spec(p: C2SContainerClose) -> C2SPacket {
        C2SPacket::ContainerClose(p)
    }
}

/// A [`C2SCustomPayload`] is the [`C2SPacket::CustomPayload`] packet.
impl From<C2SCustomPayload> for C2SPacket {
    fn from(p: C2SCustomPayload) -> (r: C2SPacket) {
        C2SPacket::CustomPayload(p)
    }
}

impl vstd::std_specs::convert::FromSpecImpl<C2SCustomPayload> for C2SPacket {
    open spec fn obeys_from_spec() -> bool {
        true
    }

    open spec fn from_spec(p: C2SCustomPayload) -> C2SPacket {
        C2SPacket::CustomPayload(p)
    }
}

/// A [`C2SEditBook`] is the [`C2SPacket::EditBook`] packet.
impl From<C2SEditBook> for C2SPacket {
    fn from(p: C2SEditBook) -> (r: C2SPacket) {
        C2SPacket::EditBook(p)
    }
}

impl vstd::std_specs::convert::FromSpecImpl<C2SEditBook> for C2SPacket {
    open spec fn obeys_from_spec() -> bool {
        true
    }

    open spec fn from_spec(p: C2SEditBook) -> C2SPacket {
        C2SPacket::EditBook(p)
    }
}

/// A [`C2SQueryEntityNbt`] is the [`C2SPacket::QueryEntityNbt`] packet.
impl From<C2SQueryEntityNbt> for C2SPacket {
    fn from(p: C2SQueryEntityNbt) -> (r: C2SPacket) {
        C2SPacket::QueryEntityNbt(p)
    }
}

impl vstd::std_specs::convert::FromSpecImpl<C2SQueryEntityNbt> for C2SPacket {
    open spec fn obeys_from_spec() -> bool {
        true
    }

    open spec fn from_spec(p: C2SQueryEntityNbt) -> C2SPacket {
        C2SPacket::QueryEntityNbt(p)
    }
}

/// A [`C2SInteract`] is the [`C2SPacket::Interact`] packet.
impl From<C2SInteract> for C2SPacket {
    fn from(p: C2SInteract) -> (r: C2SPacket) {
        C2SPacket::Interact(p)
    }
}

impl vstd::std_specs::convert::FromSpecImpl<C2SInteract> for C2SPacket {
    open spec fn obeys_from_spec() -> bool {
        true
    }

    open spec fn from_spec(p: C2SInteract) -> C2SPacket {
        C2SPacket::Interact(p)
    }
}

/// A [`C2SGenerateStructure`] is the [`C2SPacket::GenerateStructure`] packet.
impl From<C2SGenerateStructure> for C2SPacket {
    fn from(p: C2SGenerateStructure) -> (r: C2SPacket) {
        C2SPacket::GenerateStructure(p)
    }
}

impl vstd::std_specs::convert::FromSpecImpl<C2SGenerateStructure> for C2SPacket {
    open spec fn obeys_from_spec() -> bool {
        true
    }

    open spec fn from_spec(p: C2SGenerateStructure) -> C2SPacket {
        C2SPacket::GenerateStructure(p)
    }
}

/// A [`C2SKeepAlive`] is the [`C2SPacket::KeepAlive`] packet.
impl From<C2SKeepAlive> for C2SPacket {
    fn from(p: C2SKeepAlive) -> (r: C2SPacket) {
        C2SPacket::KeepAlive(p)
    }
}

impl vstd::std_specs::convert::FromSpecImpl<C2SKeepAlive> for C2SPacket {
    open spec fn obeys_from_spec() -> bool {
        true
    }

    open spec fn from_spec(p: C2SKeepAlive) -> C2SPacket {
        C2SPacket::KeepAlive(p)
    }
}

/// A [`C2SLockDifficulty`] is the [`C2SPacket::LockDifficulty`] packet.
impl From<C2SLockDifficulty> for C2SPacket {
    fn from(p: C2SLockDifficulty) -> (r: C2SPacket) {
        C2SPacket::LockDifficulty(p)
    }
}

impl vstd::std_specs::convert::FromSpecImpl<C2SLockDifficulty> for C2SPacket {
    open spec fn obeys_from_spec() -> bool {
        true
    }

    open spec fn from_spec(p: C2SLockDifficulty) -> C2SPacket {
        C2SPacket::LockDifficulty(p)
    }
}

/// A [`C2SPlayerPos`] is the [`C2SPacket::PlayerPos`] packet.
impl From<C2SPlayerPos> for C2SPacket {
    fn from(p: C2SPlayerPos) -> (r: C2SPacket) {
        C2SPacket::PlayerPos(p)
    }
}

impl vstd::std_specs::convert::FromSpecImpl<C2SPlayerPos> for C2SPacket {
    open spec fn obeys_from_spec() -> bool {
        true
    }

    open spec fn from_spec(p: C2SPlayerPos) -> C2SPacket {
        C2SPacket::PlayerPos(p)
    }
}

/// A [`C2SPlayerPosRot`] is the [`C2SPacket::PlayerPosRot`] packet.
impl From<C2SPlayerPosRot> for C2SPacket {
    fn from(p: C2SPlayerPosRot) -> (r: C2SPacket) {
        C2SPacket::PlayerPosRot(p)
    }
}

impl vstd::std_specs::convert::FromSpecImpl<C2SPlayerPosRot> for C2SPacket {
    open spec fn obeys_from_spec() -> bool {
        true
    }

    open spec fn from_spec(p: C2SPlayerPosRot) -> C2SPacket {
        C2SPacket::PlayerPosRot(p)
    }
}

/// A [`C2SPlayerRot`] is the [`C2SPacket::PlayerRot`] packet.
impl From<C2SPlayerRot> for C2SPacket {
    fn from(p: C2SPlayerRot) -> (r: C2SPacket) {
        C2SPacket::PlayerRot(p)
    }
}

impl vstd::std_specs::convert::FromSpecImpl<C2SPlayerRot> for C2SPacket {
    open spec fn obeys_from_spec() -> bool {
        true
    }

    open spec fn from_spec(p: C2SPlayerRot) -> C2SPacket {
        C2SPacket::PlayerRot(p)
    }
}

/// A [`C2SPlayerStatusOnly`] is the [`C2SPacket::PlayerStatusOnly`] packet.
impl From<C2SPlayerStatusOnly> for C2SPacket {
    fn from(p: C2SPlayerStatusOnly) -> (r: C2SPacket) {
        C2SPacket::PlayerStatusOnly(p)
    }
}

impl vstd::std_specs::convert::FromSpecImpl<C2SPlayerStatusOnly> for C2SPacket {
    open spec fn obeys_from_spec() -> bool {
        true
    }

    open spec fn from_spec(p: C2SPlayerStatusOnly) -> C2SPacket {
        C2SPacket::PlayerStatusOnly(p)
    }
}

/// A [`C2SMoveVehicle`] is the [`C2SPacket::MoveVehicle`] packet.
impl From<C2SMoveVehicle> for C2SPacket {
    fn from(p: C2SMoveVehicle) -> (r: C2SPacket) {
        C2SPacket::MoveVehicle(p)
    }
}

impl vstd::std_specs::convert::FromSpecImpl<C2SMoveVehicle> for C2SPacket {
    open spec fn obeys_from_spec() -> bool {
        true
    }

    open spec fn from_spec(p: C2SMoveVehicle) -> C2SPacket {
        C2SPacket::MoveVehicle(p)
    }
}

/// A [`C2SPaddleBoat`] is the [`C2SPacket::PaddleBoat`] packet.
impl From<C2SPaddleBoat> for C2SPacket {
    fn from(p: C2SPaddleBoat) -> (r: C2SPacket) {
        C2SPacket::PaddleBoat(p)
    }
}

impl vstd::std_specs::convert::FromSpecImpl<C2SPaddleBoat> for C2SPacket {
    open spec fn obeys_from_spec() -> bool {
        true
    }

    open spec fn from_spec(p: C2SPaddleBoat) -> C2SPacket {
        C2SPacket::PaddleBoat(p)
    }
}

/// A [`C2SPickItem`] is the [`C2SPacket::PickItem`] packet.
impl From<C2SPickItem> for C2SPacket {
    fn from(p: C2SPickItem) -> (r: C2SPacket) {
        C2SPacket::PickItem(p)
    }
}

impl vstd::std_specs::convert::FromSpecImpl<C2SPickItem> for C2SPacket {
    open spec fn obeys_from_spec() -> bool {
        true
    }

    open spec fn from_spec(p: C2SPickItem) -> C2SPacket {
        C2SPacket::PickItem(p)
    }
}

/// A [`C2SPlaceRecipe`] is the [`C2SPacket::PlaceRecipe`] packet.
impl From<C2SPlaceRecipe> for C2SPacket {
    fn from(p: C2SPlaceRecipe) -> (r: C2SPacket) {
        C2SPacket::PlaceRecipe(p)
    }
}

impl vstd::std_specs::convert::FromSpecImpl<C2SPlaceRecipe> for C2SPacket {
    open spec fn obeys_from_spec() -> bool {
        true
    }

    open spec fn from_spec(p: C2SPlaceRecipe) -> C2SPacket {
        C2SPacket::PlaceRecipe(p)
    }
}

/// A [`C2SPlayerAbilities`] is the [`C2SPacket::PlayerAbilities`] packet.
impl From<C2SPlayerAbilities> for C2SPacket {
    fn from(p: C2SPlayerAbilities) -> (r: C2SPacket) {
        C2SPacket::PlayerAbilities(p)
    }
}

impl vstd::std_specs::convert::FromSpecImpl<C2SPlayerAbilities> for C2SPacket {
    open spec fn obeys_from_spec() -> bool {
        true
    }

    open spec fn from_spec(p: C2SPlayerAbilities) -> C2SPacket {
        C2SPacket::PlayerAbilities(p)
    }
}

/// A [`C2SPlayerAction`] is the [`C2SPacket::PlayerAction`] packet.
impl From<C2SPlayerAction> for C2SPacket {
    fn from(p: C2SPlayerAction) -> (r: C2SPacket) {
        C2SPacket::PlayerAction(p)
    }
}

impl vstd::std_specs::convert::FromSpecImpl<C2SPlayerAction> for C2SPacket {
    open spec fn obeys_from_spec() -> bool {
        true
    }

    open spec fn from_spec(p: C2SPlayerAction) -> C2SPacket {
        C2SPacket::PlayerAction(p)
    }
}

/// A [`C2SPlayerCommand`] is the [`C2SPacket::PlayerCommand`] packet.
impl From<C2SPlayerCommand> for C2SPacket {
    fn from(p: C2SPlayerCommand) -> (r: C2SPacket) {
        C2SPacket::PlayerCommand(p)
    }
}

impl vstd::std_specs::convert::FromSpecImpl<C2SPlayerCommand> for C2SPacket {
    open spec fn obeys_from_spec() -> bool {
        true
    }

    open spec fn from_spec(p: C2SPlayerCommand) -> C2SPacket {
        C2SPacket::PlayerCommand(p)
    }
}

/// A [`C2SPlayerInput`] is the [`C2SPacket::PlayerInput`] packet.
impl From<C2SPlayerInput> for C2SPacket {
    fn from(p: C2SPlayerInput) -> (r: C2SPacket) {
        C2SPacket::PlayerInput(p)
    }
}

impl vstd::std_specs::convert::FromSpecImpl<C2SPlayerInput> for C2SPacket {
    open spec fn obeys_from_spec() -> bool {
        true
    }

    open spec fn from_spec(p: C2SPlayerInput) -> C2SPacket {
        C2SPacket::PlayerInput(p)
    }
}

/// A [`C2SPong`] is the [`C2SPacket::Pong`] packet.
impl From<C2SPong> for C2SPacket {
    fn from(p: C2SPong) -> (r: C2SPacket) {
        C2SPacket::Pong(p)
    }
}

impl vstd::std_specs::convert::FromSpecImpl<C2SPong> for C2SPacket {
    open spec fn obeys_from_spec() -> bool {
        true
    }

    open spec fn from_spec(p: C2SPong) -> C2SPacket {
        C2SPacket::Pong(p)
    }
}

/// A [`C2SRecipeBookChangeSettings`] is the [`C2SPacket::RecipeBookChangeSettings`] packet.
impl From<C2SRecipeBookChangeSettings> for C2SPacket {
    fn from(p: C2SRecipeBookChangeSettings) -> (r: C2SPacket) {
        C2SPacket::RecipeBookChangeSettings(p)
    }
}

impl vstd::std_specs::convert::FromSpecImpl<C2SRecipeBookChangeSettings> for C2SPacket {
    open spec fn obeys_from_spec() -> bool {
        true
    }

    open spec fn from_spec(p: C2SRecipeBookChangeSettings) -> C2SPacket {
        C2SPacket::RecipeBookChangeSettings(p)
    }
}

/// A [`C2SRecipeBookSeenRecipe`] is the [`C2SPacket::RecipeBookSeenRecipe`] packet.
impl From<C2SRecipeBookSeenRecipe> for C2SPacket {
    fn from(p: C2SRecipeBookSeenRecipe) -> (r: C2SPacket) {
        C2SPacket::RecipeBookSeenRecipe(p)
    }
}

impl vstd::std_specs::convert::FromSpecImpl<C2SRecipeBookSeenRecipe> for C2SPacket {
    open spec fn obeys_from_spec() -> bool {
        true
    }

    open spec fn from_spec(p: C2SRecipeBookSeenRecipe) -> C2SPacket {
        C2SPacket::RecipeBookSeenRecipe(p)
    }
}

/// A [`C2SRenameItem`] is the [`C2SPacket::RenameItem`] packet.
impl From<C2SRenameItem> for C2SPacket {
    fn from(p: C2SRenameItem) -> (r: C2SPacket) {
        C2SPacket::RenameItem(p)
    }
}

impl vstd::std_specs::convert::FromSpecImpl<C2SRenameItem> for C2SPacket {
    open spec fn obeys_from_spec() -> bool {
        true
    }

    open spec fn from_spec(p: C2SRenameItem) -> C2SPacket {
        C2SPacket::RenameItem(p)
    }
}

/// A [`C2SResourcePack`] is the [`C2SPacket::ResourcePack`] packet.
impl From<C2SResourcePack> for C2SPacket {
    fn from(p: C2SResourcePack) -> (r: C2SPacket) {
        C2SPacket::ResourcePack(p)
    }
}

impl vstd::std_specs::convert::FromSpecImpl<C2SResourcePack> for C2SPacket {
    open spec fn obeys_from_spec() -> bool {
        true
    }

    open spec fn from_spec(p: C2SResourcePack) -> C2SPacket {
        C2SPacket::ResourcePack(p)
    }
}

/// A [`C2SSeenAdvancements`] is the [`C2SPacket::SeenAdvancements`] packet.
impl From<C2SSeenAdvancements> for C2SPacket {
    fn from(p: C2SSeenAdvancements) -> (r: C2SPacket) {
        C2SPacket::SeenAdvancements(p)
    }
}

impl vstd::std_specs::convert::FromSpecImpl<C2SSeenAdvancements> for C2SPacket {
    open spec fn obeys_from_spec() -> bool {
        true
    }

    open spec fn from_spec(p: C2SSeenAdvancements) -> C2SPacket {
        C2SPacket::SeenAdvancements(p)
    }
}

/// A [`C2SSelectTrade`] is the [`C2SPacket::SelectTrade`] packet.
impl From<C2SSelectTrade> for C2SPacket {
    fn from(p: C2SSelectTrade) -> (r: C2SPacket) {
        C2SPacket::SelectTrade(p)
    }
}

impl vstd::std_specs::convert::FromSpecImpl<C2SSelectTrade> for C2SPacket {
    open spec fn obeys_from_spec() -> bool {
        true
    }

    open spec fn from_spec(p: C2SSelectTrade) -> C2SPacket {
        C2SPacket::SelectTrade(p)
    }
}

/// A [`C2SSetBeacon`] is the [`C2SPacket::SetBeacon`] packet.
impl From<C2SSetBeacon> for C2SPacket {
    fn from(p: C2SSetBeacon) -> (r: C2SPacket) {
        C2SPacket::SetBeacon(p)
    }
}

impl vstd::std_specs::convert::FromSpecImpl<C2SSetBeacon> for C2SPacket {
    open spec fn obeys_from_spec() -> bool {
        true
    }

    open spec fn from_spec(p: C2SSetBeacon) -> C2SPacket {
        C2SPacket::SetBeacon(p)
    }
}

/// A [`C2SSetCarriedItem`] is the [`C2SPacket::SetCarriedItem`] packet.
impl From<C2SSetCarriedItem> for C2SPacket {
    fn from(p: C2SSetCarriedItem) -> (r: C2SPacket) {
        C2SPacket::SetCarriedItem(p)
    }
}

impl vstd::std_specs::convert::FromSpecImpl<C2SSetCarriedItem> for C2SPacket {
    open spec fn obeys_from_spec() -> bool {
        true
    }

    open spec fn from_spec(p: C2SSetCarriedItem) -> C2SPacket {
        C2SPacket::SetCarriedItem(p)
    }
}

/// A [`C2SSetCommandBlock`] is the [`C2SPacket::SetCommandBlock`] packet.
impl From<C2SSetCommandBlock> for C2SPacket {
    fn from(p: C2SSetCommandBlock) -> (r: C2SPacket) {
        C2SPacket::SetCommandBlock(p)
    }
}

impl vstd::std_specs::convert::FromSpecImpl<C2SSetCommandBlock> for C2SPacket {
    open spec fn obeys_from_spec() -> bool {
        true
    }

    open spec fn from_spec(p: C2SSetCommandBlock) -> C2SPacket {
        C2SPacket::SetCommandBlock(p)
    }
}

/// A [`C2SSetCommandMinecart`] is the [`C2SPacket::SetCommandMinecart`] packet.
impl From<C2SSetCommandMinecart> for C2SPacket {
    fn from(p: C2SSetCommandMinecart) -> (r: C2SPacket) {
        C2SPacket::SetCommandMinecart(p)
    }
}

impl vstd::std_specs::convert::FromSpecImpl<C2SSetCommandMinecart> for C2SPacket {
    open spec fn obeys_from_spec() -> bool {
        true
    }

    open spec fn from_spec(p: C2SSetCommandMinecart) -> C2SPacket {
        C2SPacket::SetCommandMinecart(p)
    }
}

/// A [`C2SSetCreativeModeSlot`] is the [`C2SPacket::SetCreativeModeSlot`] packet.
impl From<C2SSetCreativeModeSlot> for C2SPacket {
    fn from(p: C2SSetCreativeModeSlot) -> (r: C2SPacket) {
        C2SPacket::SetCreativeModeSlot(p)
    }
}

impl vstd::std_specs::convert::FromSpecImpl<C2SSetCreativeModeSlot> for C2SPacket {
    open spec fn obeys_from_spec() -> bool {
        true
    }

    open spec fn from_spec(p: C2SSetCreativeModeSlot) -> C2SPacket {
        C2SPacket::SetCreativeModeSlot(p)
    }
}

/// A [`C2SSetJigsawBlock`] is the [`C2SPacket::SetJigsawBlock`] packet.
impl From<C2SSetJigsawBlock> for C2SPacket {
    fn from(p: C2SSetJigsawBlock) -> (r: C2SPacket) {
        C2SPacket::SetJigsawBlock(p)
    }
}

impl vstd::std_specs::convert::FromSpecImpl<C2SSetJigsawBlock> for C2SPacket {
    open spec fn obeys_from_spec() -> bool {
        true
    }

    open spec fn from_spec(p: C2SSetJigsawBlock) -> C2SPacket {
        C2SPacket::SetJigsawBlock(p)
    }
}

/// A [`C2SSetStructureBlock`] is the [`C2SPacket::SetStructureBlock`] packet.
impl From<C2SSetStructureBlock> for C2SPacket {
    fn from(p: C2SSetStructureBlock) -> (r: C2SPacket) {
        C2SPacket::SetStructureBlock(p)
    }
}

impl vstd::std_specs::convert::FromSpecImpl<C2SSetStructureBlock> for C2SPacket {
    open spec fn obeys_from_spec() -> bool {
        true
    }

    open spec fn from_spec(p: C2SSetStructureBlock) -> C2SPacket {
        C2SPacket::SetStructureBlock(p)
    }
}

/// A [`C2SSignUpdate`] is the [`C2SPacket::SignUpdate`] packet.
impl From<C2SSignUpdate> for C2SPacket {
    fn from(p: C2SSignUpdate) -> (r: C2SPacket) {
        C2SPacket::SignUpdate(p)
    }
}

impl vstd::std_specs::convert::FromSpecImpl<C2SSignUpdate> for C2SPacket {
    open spec fn obeys_from_spec() -> bool {
        true
    }

    open spec fn from_spec(p: C2SSignUpdate) -> C2SPacket {
        C2SPacket::SignUpdate(p)
    }
}

/// A [`C2SSwing`] is the [`C2SPacket::Swing`] packet.
impl From<C2SSwing> for C2SPacket {
    fn from(p: C2SSwing) -> (r: C2SPacket) {
        C2SPacket::Swing(p)
    }
}

impl vstd::std_specs::convert::FromSpecImpl<C2SSwing> for C2SPacket {
    open spec fn obeys_from_spec() -> bool {
        true
    }

    open spec fn from_spec(p: C2SSwing) -> C2SPacket {
        C2SPacket::Swing(p)
    }
}

/// A [`C2SSpectate`] is the [`C2SPacket::Spectate`] packet.
impl From<C2SSpectate> for C2SPacket {
    fn from(p: C2SSpectate) -> (r: C2SPacket) {
        C2SPacket::Spectate(p)
    }
}

impl vstd::std_specs::convert::FromSpecImpl<C2SSpectate> for C2SPacket {
    open spec fn obeys_from_spec() -> bool {
        true
    }

    open spec fn from_spec(p: C2SSpectate) -> C2SPacket {
        C2SPacket::Spectate(p)
    }
}

/// A [`C2SUseItemOn`] is the [`C2SPacket::UseItemOn`] packet.
impl From<C2SUseItemOn> for C2SPacket {
    fn from(p: C2SUseItemOn) -> (r: C2SPacket) {
        C2SPacket::UseItemOn(p)
    }
}

impl vstd::std_specs::convert::FromSpecImpl<C2SUseItemOn> for C2SPacket {
    open spec fn obeys_from_spec() -> bool {
        true
    }

    open spec fn from_spec(p: C2SUseItemOn) -> C2SPacket {
        C2SPacket::UseItemOn(p)
    }
}

/// A [`C2SUseItem`] is the [`C2SPacket::UseItem`] packet.
impl From<C2SUseItem> for C2SPacket {
    fn from(p: C2SUseItem) -> (r: C2SPacket) {
        C2SPacket::UseItem(p)
    }
}

impl vstd::std_specs::convert::FromSpecImpl<C2SUseItem> for C2SPacket {
    open spec fn obeys_from_spec() -> bool {
        true
    }

    open spec fn from_spec(p: C2SUseItem) -> C2SPacket {
        C2SPacket::UseItem(p)
    }
}

impl C2SPacket {
    /// The model of this packet.
    pub open spec fn model(&self) -> C2SPacketModel {
        match self {
            C2SPacket::Handshake(p) => C2SPacketModel::Handshake(p.model()),
            C2SPacket::StatusRequest(p) => C2SPacketModel::StatusRequest(p.model()),
            C2SPacket::Ping(p) => C2SPacketModel::Ping(p.model()),
            C2SPacket::LoginStart(p) => C2SPacketModel::LoginStart(p.model()),
            C2SPacket::EncryptionResponse(p) => C2SPacketModel::EncryptionResponse(p.model()),
            C2SPacket::LoginPluginResponse(p) => C2SPacketModel::LoginPluginResponse(p.model()),
            C2SPacket::AcceptTeleportation(p) => C2SPacketModel::AcceptTeleportation(p.model()),
            C2SPacket::QueryBlockNbt(p) => C2SPacketModel::QueryBlockNbt(p.model()),
            C2SPacket::ChangeDifficulty(p) => C2SPacketModel::ChangeDifficulty(p.model()),
            C2SPacket::ChatAck(p) => C2SPacketModel::ChatAck(p.model()),
            C2SPacket::ChatCommand(p) => C2SPacketModel::ChatCommand(p.model()),
            C2SPacket::ChatMessage(p) => C2SPacketModel::ChatMessage(p.model()),
            C2SPacket::ChatSessionUpdate(p) => C2SPacketModel::ChatSessionUpdate(p.model()),
            C2SPacket::ClientCommand(p) => C2SPacketModel::ClientCommand(p.model()),
            C2SPacket::ClientInformation(p) => C2SPacketModel::ClientInformation(p.model()),
            C2SPacket::CommandSuggestion(p) => C2SPacketModel::CommandSuggestion(p.model()),
            C2SPacket::EnchantItem(p) => C2SPacketModel::EnchantItem(p.model()),
            C2SPacket::ContainerClick(p) => C2SPacketModel::ContainerClick(p.model()),
            C2SPacket::ContainerClose(p) => C2SPacketModel::ContainerClose(p.model()),
            C2SPacket::CustomPayload(p) => C2SPacketModel::CustomPayload(p.model()),
            C2SPacket::EditBook(p) => C2SPacketModel::EditBook(p.model()),
            C2SPacket::QueryEntityNbt(p) => C2SPacketModel::QueryEntityNbt(p.model()),
            C2SPacket::Interact(p) => C2SPacketModel::Interact(p.model()),
            C2SPacket::GenerateStructure(p) => C2SPacketModel::GenerateStructure(p.model()),
            C2SPacket::KeepAlive(p) => C2SPacketModel::KeepAlive(p.model()),
            C2SPacket::LockDifficulty(p) => C2SPacketModel::LockDifficulty(p.model()),
            C2SPacket::PlayerPos(p) => C2SPacketModel::PlayerPos(p.model()),
            C2SPacket::PlayerPosRot(p) => C2SPacketModel::PlayerPosRot(p.model()),
            C2SPacket::PlayerRot(p) => C2SPacketModel::PlayerRot(p.model()),
            C2SPacket::PlayerStatusOnly(p) => C2SPacketModel::PlayerStatusOnly(p.model()),
            C2SPacket::MoveVehicle(p) => C2SPacketModel::MoveVehicle(p.model()),
            C2SPacket::PaddleBoat(p) => C2SPacketModel::PaddleBoat(p.model()),
            C2SPacket::PickItem(p) => C2SPacketModel::PickItem(p.model()),
            C2SPacket::PlaceRecipe(p) => C2SPacketModel::PlaceRecipe(p.model()),
            C2SPacket::PlayerAbilities(p) => C2SPacketModel::PlayerAbilities(p.model()),
            C2SPacket::PlayerAction(p) => C2SPacketModel::PlayerAction(p.model()),
            C2SPacket::PlayerCommand(p) => C2SPacketModel::PlayerCommand(p.model()),
            C2SPacket::PlayerInput(p) => C2SPacketModel::PlayerInput(p.model()),
            C2SPacket::Pong(p) => C2SPacketModel::Pong(p.model()),
            C2SPacket::RecipeBookChangeSettings(p) => C2SPacketModel::RecipeBookChangeSettings(p.model()),
            C2SPacket::RecipeBookSeenRecipe(p) => C2SPacketModel::RecipeBookSeenRecipe(p.model()),
            C2SPacket::RenameItem(p) => C2SPacketModel::RenameItem(p.model()),
            C2SPacket::ResourcePack(p) => C2SPacketModel::ResourcePack(p.model()),
            C2SPacket::SeenAdvancements(p) => C2SPacketModel::SeenAdvancements(p.model()),
            C2SPacket::SelectTrade(p) => C2SPacketModel::SelectTrade(p.model()),
            C2SPacket::SetBeacon(p) => C2SPacketModel::SetBeacon(p.model()),
            C2SPacket::SetCarriedItem(p) => C2SPacketModel::SetCarriedItem(p.model()),
            C2SPacket::SetCommandBlock(p) => C2SPacketModel::SetCommandBlock(p.model()),
            C2SPacket::SetCommandMinecart(p) => C2SPacketModel::SetCommandMinecart(p.model()),
            C2SPacket::SetCreativeModeSlot(p) => C2SPacketModel::SetCreativeModeSlot(p.model()),
            C2SPacket::SetJigsawBlock(p) => C2SPacketModel::SetJigsawBlock(p.model()),
            C2SPacket::SetStructureBlock(p) => C2SPacketModel::SetStructureBlock(p.model()),
            C2SPacket::SignUpdate(p) => C2SPacketModel::SignUpdate(p.model()),
            C2SPacket::Swing(p) => C2SPacketModel::Swing(p.model()),
            C2SPacket::Spectate(p) => C2SPacketModel::Spectate(p.model()),
            C2SPacket::UseItemOn(p) => C2SPacketModel::UseItemOn(p.model()),
            C2SPacket::UseItem(p) => C2SPacketModel::UseItem(p.model()),
        }
    }

    /// Decodes a packet from `buf`: its leading `VarInt` id, then the fields
    /// of the variant whose state is `state` and whose id is that id. Ids are
    /// reused across states, so the state decides between them.
    pub fn decode_in_state(state: State, buf: &[u8]) -> (r: Result<C2SPacket, DecodeError>)
        ensures
            match spec_decode_c2s_packet(state, buf@) {
                Ok(m) => r matches Ok(p) && p.model() == m,
                Err(e) => r == Err::<C2SPacket, DecodeError>(e),
            },
    {
        assert(buf@.skip(0) =~= buf@);
        let (id, p) = match <VarInt as Wire>::read(buf, 0) {
            Ok(x) => x,
            Err(e) => return Err(e),
        };
        match state {
            State::Handshake => Self::decode_handshake(id.0, buf, p),
            State::Status => Self::decode_status(id.0, buf, p),
            State::Login => Self::decode_login(id.0, buf, p),
            State::Configuration => Err(DecodeError::UnknownPacket),
            State::Play => Self::decode_play(id.0, buf, p),
        }
    }

    fn decode_handshake(id: i32, buf: &[u8], p: usize) -> (r: Result<C2SPacket, DecodeError>)
        requires
            p <= buf@.len(),
        ensures
            match spec_decode_c2s_packet_handshake(id, buf@.skip(p as int)) {
                Ok(m) => r matches Ok(x) && x.model() == m,
                Err(e) => r == Err::<C2SPacket, DecodeError>(e),
            },
    {
        if id == 0x00 {
            match <C2SHandshake as Wire>::read(buf, p) {
                Ok((x, _)) => Ok(C2SPacket::Handshake(x)),
                Err(e) => Err(e),
            }
        } else {
            Err(DecodeError::UnknownPacket)
        }
    }

    fn decode_status(id: i32, buf: &[u8], p: usize) -> (r: Result<C2SPacket, DecodeError>)
        requires
            p <= buf@.len(),
        ensures
            match spec_decode_c2s_packet_status(id, buf@.skip(p as int)) {
                Ok(m) => r matches Ok(x) && x.model() == m,
                Err(e) => r == Err::<C2SPacket, DecodeError>(e),
            },
    {
        if id == 0x00 {
            match <C2SStatusRequest as Wire>::read(buf, p) {
                Ok((x, _)) => Ok(C2SPacket::StatusRequest(x)),
                Err(e) => Err(e),
            }
        } else if id == 0x01 {
            match <C2SPing as Wire>::read(buf, p) {
                Ok((x, _)) => Ok(C2SPacket::Ping(x)),
                Err(e) => Err(e),
            }
        } else {
            Err(DecodeError::UnknownPacket)
        }
    }

    fn decode_login(id: i32, buf: &[u8], p: usize) -> (r: Result<C2SPacket, DecodeError>)
        requires
            p <= buf@.len(),
        ensures
            match spec_decode_c2s_packet_login(id, buf@.skip(p as int)) {
                Ok(m) => r matches Ok(x) && x.model() == m,
                Err(e) => r == Err::<C2SPacket, DecodeError>(e),
            },
    {
        if id == 0x00 {
            match <C2SLoginStart as Wire>::read(buf, p) {
                Ok((x, _)) => Ok(C2SPacket::LoginStart(x)),
                Err(e) => Err(e),
            }
        } else if id == 0x01 {
            match <C2SEncryptionResponse as Wire>::read(buf, p) {
                Ok((x, _)) => Ok(C2SPacket::EncryptionResponse(x)),
                Err(e) => Err(e),
            }
        } else if id == 0x02 {
            match <C2SLoginPluginResponse as Wire>::read(buf, p) {
                Ok((x, _)) => Ok(C2SPacket::LoginPluginResponse(x)),
                Err(e) => Err(e),
            }
        } else {
            Err(DecodeError::UnknownPacket)
        }
    }

    fn decode_play(id: i32, buf: &[u8], p: usize) -> (r: Result<C2SPacket, DecodeError>)
        requires
            p <= buf@.len(),
        ensures
            match spec_decode_c2s_packet_play(id, buf@.skip(p as int)) {
                Ok(m) => r matches Ok(x) && x.model() == m,
                Err(e) => r == Err::<C2SPacket, DecodeError>(e),
            },
    {
        if id < 0x06 {
            Self::decode_play_0(id, buf, p)
        } else if id < 0x0C {
            Self::decode_play_1(id, buf, p)
        } else if id < 0x12 {
            Self::decode_play_2(id, buf, p)
        } else if id < 0x18 {
            Self::decode_play_3(id, buf, p)
        } else if id < 0x1E {
            Self::decode_play_4(id, buf, p)
        } else if id < 0x24 {
            Self::decode_play_5(id, buf, p)
        } else if id < 0x2A {
            Self::decode_play_6(id, buf, p)
        } else if id < 0x30 {
            Self::decode_play_7(id, buf, p)
        } else {
            Self::decode_play_8(id, buf, p)
        }
    }

    fn decode_play_0(id: i32, buf: &[u8], p: usize) -> (r: Result<C2SPacket, DecodeError>)
        requires
            p <= buf@.len(),
        ensures
            match spec_decode_c2s_packet_play_0(id, buf@.skip(p as int)) {
                Ok(m) => r matches Ok(x) && x.model() == m,
                Err(e) => r == Err::<C2SPacket, DecodeError>(e),
            },
    {
        if id == 0x00 {
            match <C2SAcceptTeleportation as Wire>::read(buf, p) {
                Ok((x, _)) => Ok(C2SPacket::AcceptTeleportation(x)),
                Err(e) => Err(e),
            }
        } else if id == 0x01 {
            match <C2SQueryBlockNbt as Wire>::read(buf, p) {
                Ok((x, _)) => Ok(C2SPacket::QueryBlockNbt(x)),
                Err(e) => Err(e),
            }
        } else if id == 0x02 {
            match <C2SChangeDifficulty as Wire>::read(buf, p) {
                Ok((x, _)) => Ok(C2SPacket::ChangeDifficulty(x)),
                Err(e) => Err(e),
            }
        } else if id == 0x03 {
            match <C2SChatAck as Wire>::read(buf, p) {
                Ok((x, _)) => Ok(C2SPacket::ChatAck(x)),
                Err(e) => Err(e),
            }
        } else if id == 0x04 {
            match <C2SChatCommand as Wire>::read(buf, p) {
                Ok((x, _)) => Ok(C2SPacket::ChatCommand(x)),
                Err(e) => Err(e),
            }
        } else if id == 0x05 {
            match <C2SChatMessage as Wire>::read(buf, p) {
                Ok((x, _)) => Ok(C2SPacket::ChatMessage(x)),
                Err(e) => Err(e),
            }
        } else {
            Err(DecodeError::UnknownPacket)
        }
    }

    fn decode_play_1(id: i32, buf: &[u8], p: usize) -> (r: Result<C2SPacket, DecodeError>)
        requires
            p <= buf@.len(),
        ensures
            match spec_decode_c2s_packet_play_1(id, buf@.skip(p as int)) {
                Ok(m) => r matches Ok(x) && x.model() == m,
                Err(e) => r == Err::<C2SPacket, DecodeError>(e),
            },
    {
        if id == 0x06 {
            match <C2SChatSessionUpdate as Wire>::read(buf, p) {
                Ok((x, _)) => Ok(C2SPacket::ChatSessionUpdate(x)),
                Err(e) => Err(e),
            }
        } else if id == 0x07 {
            match <C2SClientCommand as Wire>::read(buf, p) {
                Ok((x, _)) => Ok(C2SPacket::ClientCommand(x)),
                Err(e) => Err(e),
            }
        } else if id == 0x08 {
            match <C2SClientInformation as Wire>::read(buf, p) {
                Ok((x, _)) => Ok(C2SPacket::ClientInformation(x)),
                Err(e) => Err(e),
            }
        } else if id == 0x09 {
            match <C2SCommandSuggestion as Wire>::read(buf, p) {
                Ok((x, _)) => Ok(C2SPacket::CommandSuggestion(x)),
                Err(e) => Err(e),
            }
        } else if id == 0x0A {
            match <C2SEnchantItem as Wire>::read(buf, p) {
                Ok((x, _)) => Ok(C2SPacket::EnchantItem(x)),
                Err(e) => Err(e),
            }
        } else if id == 0x0B {
            match <C2SContainerClick as Wire>::read(buf, p) {
                Ok((x, _)) => Ok(C2SPacket::ContainerClick(x)),
                Err(e) => Err(e),
            }
        } else {
            Err(DecodeError::UnknownPacket)
        }
    }

    fn decode_play_2(id: i32, buf: &[u8], p: usize) -> (r: Result<C2SPacket, DecodeError>)
        requires
            p <= buf@.len(),
        ensures
            match spec_decode_c2s_packet_play_2(id, buf@.skip(p as int)) {
                Ok(m) => r matches Ok(x) && x.model() == m,
                Err(e) => r == Err::<C2SPacket, DecodeError>(e),
            },
    {
        if id == 0x0C {
            match <C2SContainerClose as Wire>::read(buf, p) {
                Ok((x, _)) => Ok(C2SPacket::ContainerClose(x)),
                Err(e) => Err(e),
            }
        } else if id == 0x0D {
            match <C2SCustomPayload as Wire>::read(buf, p) {
                Ok((x, _)) => Ok(C2SPacket::CustomPayload(x)),
                Err(e) => Err(e),
            }
        } else if id == 0x0E {
            match <C2SEditBook as Wire>::read(buf, p) {
                Ok((x, _)) => Ok(C2SPacket::EditBook(x)),
                Err(e) => Err(e),
            }
        } else if id == 0x0F {
            match <C2SQueryEntityNbt as Wire>::read(buf, p) {
                Ok((x, _)) => Ok(C2SPacket::QueryEntityNbt(x)),
                Err(e) => Err(e),
            }
        } else if id == 0x10 {
            match <C2SInteract as Wire>::read(buf, p) {
                Ok((x, _)) => Ok(C2SPacket::Interact(x)),
                Err(e) => Err(e),
            }
        } else if id == 0x11 {
            match <C2SGenerateStructure as Wire>::read(buf, p) {
                Ok((x, _)) => Ok(C2SPacket::GenerateStructure(x)),
                Err(e) => Err(e),
            }
        } else {
            Err(DecodeError::UnknownPacket)
        }
    }

    fn decode_play_3(id: i32, buf: &[u8], p: usize) -> (r: Result<C2SPacket, DecodeError>)
        requires
            p <= buf@.len(),
        ensures
            match spec_decode_c2s_packet_play_3(id, buf@.skip(p as int)) {
                Ok(m) => r matches Ok(x) && x.model() == m,
                Err(e) => r == Err::<C2SPacket, DecodeError>(e),
            },
    {
        if id == 0x12 {
            match <C2SKeepAlive as Wire>::read(buf, p) {
                Ok((x, _)) => Ok(C2SPacket::KeepAlive(x)),
                Err(e) => Err(e),
            }
        } else if id == 0x13 {
            match <C2SLockDifficulty as Wire>::read(buf, p) {
                Ok((x, _)) => Ok(C2SPacket::LockDifficulty(x)),
                Err(e) => Err(e),
            }
        } else if id == 0x14 {
            match <C2SPlayerPos as Wire>::read(buf, p) {
                Ok((x, _)) => Ok(C2SPacket::PlayerPos(x)),
                Err(e) => Err(e),
            }
        } else if id == 0x15 {
            match <C2SPlayerPosRot as Wire>::read(buf, p) {
                Ok((x, _)) => Ok(C2SPacket::PlayerPosRot(x)),
                Err(e) => Err(e),
            }
        } else if id == 0x16 {
            match <C2SPlayerRot as Wire>::read(buf, p) {
                Ok((x, _)) => Ok(C2SPacket::PlayerRot(x)),
                Err(e) => Err(e),
            }
        } else if id == 0x17 {
            match <C2SPlayerStatusOnly as Wire>::read(buf, p) {
                Ok((x, _)) => Ok(C2SPacket::PlayerStatusOnly(x)),
                Err(e) => Err(e),
            }
        } else {
            Err(DecodeError::UnknownPacket)
        }
    }

    fn decode_play_4(id: i32, buf: &[u8], p: usize) -> (r: Result<C2SPacket, DecodeError>)
        requires
            p <= buf@.len(),
        ensures
            match spec_decode_c2s_packet_play_4(id, buf@.skip(p as int)) {
                Ok(m) => r matches Ok(x) && x.model() == m,
                Err(e) => r == Err::<C2SPacket, DecodeError>(e),
            },
    {
        if id == 0x18 {
            match <C2SMoveVehicle as Wire>::read(buf, p) {
                Ok((x, _)) => Ok(C2SPacket::MoveVehicle(x)),
                Err(e) => Err(e),
            }
        } else if id == 0x19 {
            match <C2SPaddleBoat as Wire>::read(buf, p) {
                Ok((x, _)) => Ok(C2SPacket::PaddleBoat(x)),
                Err(e) => Err(e),
            }
        } else if id == 0x1A {
            match <C2SPickItem as Wire>::read(buf, p) {
                Ok((x, _)) => Ok(C2SPacket::PickItem(x)),
                Err(e) => Err(e),
            }
        } else if id == 0x1B {
            match <C2SPlaceRecipe as Wire>::read(buf, p) {
                Ok((x, _)) => Ok(C2SPacket::PlaceRecipe(x)),
                Err(e) => Err(e),
            }
        } else if id == 0x1C {
            match <C2SPlayerAbilities as Wire>::read(buf, p) {
                Ok((x, _)) => Ok(C2SPacket::PlayerAbilities(x)),
                Err(e) => Err(e),
            }
        } else if id == 0x1D {
            match <C2SPlayerAction as Wire>::read(buf, p) {
                Ok((x, _)) => Ok(C2SPacket::PlayerAction(x)),
                Err(e) => Err(e),
            }
        } else {
            Err(DecodeError::UnknownPacket)
        }
    }

    fn decode_play_5(id: i32, buf: &[u8], p: usize) -> (r: Result<C2SPacket, DecodeError>)
        requires
            p <= buf@.len(),
        ensures
            match spec_decode_c2s_packet_play_5(id, buf@.skip(p as int)) {
                Ok(m) => r matches Ok(x) && x.model() == m,
                Err(e) => r == Err::<C2SPacket, DecodeError>(e),
            },
    {
        if id == 0x1E {
            match <C2SPlayerCommand as Wire>::read(buf, p) {
                Ok((x, _)) => Ok(C2SPacket::PlayerCommand(x)),
                Err(e) => Err(e),
            }
        } else if id == 0x1F {
            match <C2SPlayerInput as Wire>::read(buf, p) {
                Ok((x, _)) => Ok(C2SPacket::PlayerInput(x)),
                Err(e) => Err(e),
            }
        } else if id == 0x20 {
            match <C2SPong as Wire>::read(buf, p) {
                Ok((x, _)) => Ok(C2SPacket::Pong(x)),
                Err(e) => Err(e),
            }
        } else if id == 0x21 {
            match <C2SRecipeBookChangeSettings as Wire>::read(buf, p) {
                Ok((x, _)) => Ok(C2SPacket::RecipeBookChangeSettings(x)),
                Err(e) => Err(e),
            }
        } else if id == 0x22 {
            match <C2SRecipeBookSeenRecipe as Wire>::read(buf, p) {
                Ok((x, _)) => Ok(C2SPacket::RecipeBookSeenRecipe(x)),
                Err(e) => Err(e),
            }
        } else if id == 0x23 {
            match <C2SRenameItem as Wire>::read(buf, p) {
                Ok((x, _)) => Ok(C2SPacket::RenameItem(x)),
                Err(e) => Err(e),
            }
        } else {
            Err(DecodeError::UnknownPacket)
        }
    }

    fn decode_play_6(id: i32, buf: &[u8], p: usize) -> (r: Result<C2SPacket, DecodeError>)
        requires
            p <= buf@.len(),
        ensures
            match spec_decode_c2s_packet_play_6(id, buf@.skip(p as int)) {
                Ok(m) => r matches Ok(x) && x.model() == m,
                Err(e) => r == Err::<C2SPacket, DecodeError>(e),
            },
    {
        if id == 0x24 {
            match <C2SResourcePack as Wire>::read(buf, p) {
                Ok((x, _)) => Ok(C2SPacket::ResourcePack(x)),
                Err(e) => Err(e),
            }
        } else if id == 0x25 {
            match <C2SSeenAdvancements as Wire>::read(buf, p) {
                Ok((x, _)) => Ok(C2SPacket::SeenAdvancements(x)),
                Err(e) => Err(e),
            }
        } else if id == 0x26 {
            match <C2SSelectTrade as Wire>::read(buf, p) {
                Ok((x, _)) => Ok(C2SPacket::SelectTrade(x)),
                Err(e) => Err(e),
            }
        } else if id == 0x27 {
            match <C2SSetBeacon as Wire>::read(buf, p) {
                Ok((x, _)) => Ok(C2SPacket::SetBeacon(x)),
                Err(e) => Err(e),
            }
        } else if id == 0x28 {
            match <C2SSetCarriedItem as Wire>::read(buf, p) {
                Ok((x, _)) => Ok(C2SPacket::SetCarriedItem(x)),
                Err(e) => Err(e),
            }
        } else if id == 0x29 {
            match <C2SSetCommandBlock as Wire>::read(buf, p) {
                Ok((x, _)) => Ok(C2SPacket::SetCommandBlock(x)),
                Err(e) => Err(e),
            }
        } else {
            Err(DecodeError::UnknownPacket)
        }
    }

    fn decode_play_7(id: i32, buf: &[u8], p: usize) -> (r: Result<C2SPacket, DecodeError>)
        requires
            p <= buf@.len(),
        ensures
            match spec_decode_c2s_packet_play_7(id, buf@.skip(p as int)) {
                Ok(m) => r matches Ok(x) && x.model() == m,
                Err(e) => r == Err::<C2SPacket, DecodeError>(e),
            },
    {
        if id == 0x2A {
            match <C2SSetCommandMinecart as Wire>::read(buf, p) {
                Ok((x, _)) => Ok(C2SPacket::SetCommandMinecart(x)),
                Err(e) => Err(e),
            }
        } else if id == 0x2B {
            match <C2SSetCreativeModeSlot as Wire>::read(buf, p) {
                Ok((x, _)) => Ok(C2SPacket::SetCreativeModeSlot(x)),
                Err(e) => Err(e),
            }
        } else if id == 0x2C {
            match <C2SSetJigsawBlock as Wire>::read(buf, p) {
                Ok((x, _)) => Ok(C2SPacket::SetJigsawBlock(x)),
                Err(e) => Err(e),
            }
        } else if id == 0x2D {
            match <C2SSetStructureBlock as Wire>::read(buf, p) {
                Ok((x, _)) => Ok(C2SPacket::SetStructureBlock(x)),
                Err(e) => Err(e),
            }
        } else if id == 0x2E {
            match <C2SSignUpdate as Wire>::read(buf, p) {
                Ok((x, _)) => Ok(C2SPacket::SignUpdate(x)),
                Err(e) => Err(e),
            }
        } else if id == 0x2F {
            match <C2SSwing as Wire>::read(buf, p) {
                Ok((x, _)) => Ok(C2SPacket::Swing(x)),
                Err(e) => Err(e),
            }
        } else {
            Err(DecodeError::UnknownPacket)
        }
    }

    fn decode_play_8(id: i32, buf: &[u8], p: usize) -> (r: Result<C2SPacket, DecodeError>)
        requires
            p <= buf@.len(),
        ensures
            match spec_decode_c2s_packet_play_8(id, buf@.skip(p as int)) {
                Ok(m) => r matches Ok(x) && x.model() == m,
                Err(e) => r == Err::<C2SPacket, DecodeError>(e),
            },
    {
        if id == 0x30 {
            match <C2SSpectate as Wire>::read(buf, p) {
                Ok((x, _)) => Ok(C2SPacket::Spectate(x)),
                Err(e) => Err(e),
            }
        } else if id == 0x31 {
            match <C2SUseItemOn as Wire>::read(buf, p) {
                Ok((x, _)) => Ok(C2SPacket::UseItemOn(x)),
                Err(e) => Err(e),
            }
        } else if id == 0x32 {
            match <C2SUseItem as Wire>::read(buf, p) {
                Ok((x, _)) => Ok(C2SPacket::UseItem(x)),
                Err(e) => Err(e),
            }
        } else {
            Err(DecodeError::UnknownPacket)
        }
    }

}

/// What decoding a packet of [`C2SPacket`] from `s` in `state` gives: the
/// leading `VarInt` id, then the fields of the packet that the state and id
/// stand for.
pub open spec fn spec_decode_c2s_packet(state: State, s: Seq<u8>) -> Result<C2SPacketModel, DecodeError> {
    match <VarInt as Wire>::spec_read(s) {
        Ok((id, n)) => match state {
            State::Handshake => spec_decode_c2s_packet_handshake(id, s.skip(n as int)),
            State::Status => spec_decode_c2s_packet_status(id, s.skip(n as int)),
            State::Login => spec_decode_c2s_packet_login(id, s.skip(n as int)),
            State::Configuration => Err(DecodeError::UnknownPacket),
            State::Play => spec_decode_c2s_packet_play(id, s.skip(n as int)),
        },
        Err(e) => Err(e),
    }
}

/// What the fields after id `id` decode to in the Handshake state.
pub open spec fn spec_decode_c2s_packet_handshake(id: i32, body: Seq<u8>) -> Result<C2SPacketModel, DecodeError> {
    if id == 0x00 {
        match <C2SHandshake as Wire>::spec_read(body) {
            Ok((m, _)) => Ok(C2SPacketModel::Handshake(m)),
            Err(e) => Err(e),
        }
    } else {
        Err(DecodeError::UnknownPacket)
    }
}

/// What the fields after id `id` decode to in the Status state.
pub open spec fn spec_decode_c2s_packet_status(id: i32, body: Seq<u8>) -> Result<C2SPacketModel, DecodeError> {
    if id == 0x00 {
        match <C2SStatusRequest as Wire>::spec_read(body) {
            Ok((m, _)) => Ok(C2SPacketModel::StatusRequest(m)),
            Err(e) => Err(e),
        }
    } else if id == 0x01 {
        match <C2SPing as Wire>::spec_read(body) {
            Ok((m, _)) => Ok(C2SPacketModel::Ping(m)),
            Err(e) => Err(e),
        }
    } else {
        Err(DecodeError::UnknownPacket)
    }
}

/// What the fields after id `id` decode to in the Login state.
pub open spec fn spec_decode_c2s_packet_login(id: i32, body: Seq<u8>) -> Result<C2SPacketModel, DecodeError> {
    if id == 0x00 {
        match <C2SLoginStart as Wire>::spec_read(body) {
            Ok((m, _)) => Ok(C2SPacketModel::LoginStart(m)),
            Err(e) => Err(e),
        }
    } else if id == 0x01 {
        match <C2SEncryptionResponse as Wire>::spec_read(body) {
            Ok((m, _)) => Ok(C2SPacketModel::EncryptionResponse(m)),
            Err(e) => Err(e),
        }
    } else if id == 0x02 {
        match <C2SLoginPluginResponse as Wire>::spec_read(body) {
            Ok((m, _)) => Ok(C2SPacketModel::LoginPluginResponse(m)),
            Err(e) => Err(e),
        }
    } else {
        Err(DecodeError::UnknownPacket)
    }
}

/// What the fields after id `id` decode to in the Play state.
pub open spec fn spec_decode_c2s_packet_play(id: i32, body: Seq<u8>) -> Result<C2SPacketModel, DecodeError> {
    if id < 0x06 {
        spec_decode_c2s_packet_play_0(id, body)
    } else if id < 0x0C {
        spec_decode_c2s_packet_play_1(id, body)
    } else if id < 0x12 {
        spec_decode_c2s_packet_play_2(id, body)
    } else if id < 0x18 {
        spec_decode_c2s_packet_play_3(id, body)
    } else if id < 0x1E {
        spec_decode_c2s_packet_play_4(id, body)
    } else if id < 0x24 {
        spec_decode_c2s_packet_play_5(id, body)
    } else if id < 0x2A {
        spec_decode_c2s_packet_play_6(id, body)
    } else if id < 0x30 {
        spec_decode_c2s_packet_play_7(id, body)
    } else {
        spec_decode_c2s_packet_play_8(id, body)
    }
}

/// The Play packets with ids from 0x00 to 0x05.
pub open spec fn spec_decode_c2s_packet_play_0(id: i32, body: Seq<u8>) -> Result<C2SPacketModel, DecodeError> {
    if id == 0x00 {
        match <C2SAcceptTeleportation as Wire>::spec_read(body) {
            Ok((m, _)) => Ok(C2SPacketModel::AcceptTeleportation(m)),
            Err(e) => Err(e),
        }
    } else if id == 0x01 {
        match <C2SQueryBlockNbt as Wire>::spec_read(body) {
            Ok((m, _)) => Ok(C2SPacketModel::QueryBlockNbt(m)),
            Err(e) => Err(e),
        }
    } else if id == 0x02 {
        match <C2SChangeDifficulty as Wire>::spec_read(body) {
            Ok((m, _)) => Ok(C2SPacketModel::ChangeDifficulty(m)),
            Err(e) => Err(e),
        }
    } else if id == 0x03 {
        match <C2SChatAck as Wire>::spec_read(body) {
            Ok((m, _)) => Ok(C2SPacketModel::ChatAck(m)),
            Err(e) => Err(e),
        }
    } else if id == 0x04 {
        match <C2SChatCommand as Wire>::spec_read(body) {
            Ok((m, _)) => Ok(C2SPacketModel::ChatCommand(m)),
            Err(e) => Err(e),
        }
    } else if id == 0x05 {
        match <C2SChatMessage as Wire>::spec_read(body) {
            Ok((m, _)) => Ok(C2SPacketModel::ChatMessage(m)),
            Err(e) => Err(e),
        }
    } else {
        Err(DecodeError::UnknownPacket)
    }
}

/// The Play packets with ids from 0x06 to 0x0B.
pub open spec fn spec_decode_c2s_packet_play_1(id: i32, body: Seq<u8>) -> Result<C2SPacketModel, DecodeError> {
    if id == 0x06 {
        match <C2SChatSessionUpdate as Wire>::spec_read(body) {
            Ok((m, _)) => Ok(C2SPacketModel::ChatSessionUpdate(m)),
            Err(e) => Err(e),
        }
    } else if id == 0x07 {
        match <C2SClientCommand as Wire>::spec_read(body) {
            Ok((m, _)) => Ok(C2SPacketModel::ClientCommand(m)),
            Err(e) => Err(e),
        }
    } else if id == 0x08 {
        match <C2SClientInformation as Wire>::spec_read(body) {
            Ok((m, _)) => Ok(C2SPacketModel::ClientInformation(m)),
            Err(e) => Err(e),
        }
    } else if id == 0x09 {
        match <C2SCommandSuggestion as Wire>::spec_read(body) {
            Ok((m, _)) => Ok(C2SPacketModel::CommandSuggestion(m)),
            Err(e) => Err(e),
        }
    } else if id == 0x0A {
        match <C2SEnchantItem as Wire>::spec_read(body) {
            Ok((m, _)) => Ok(C2SPacketModel::EnchantItem(m)),
            Err(e) => Err(e),
        }
    } else if id == 0x0B {
        match <C2SContainerClick as Wire>::spec_read(body) {
            Ok((m, _)) => Ok(C2SPacketModel::ContainerClick(m)),
            Err(e) => Err(e),
        }
    } else {
        Err(DecodeError::UnknownPacket)
    }
}

/// The Play packets with ids from 0x0C to 0x11.
pub open spec fn spec_decode_c2s_packet_play_2(id: i32, body: Seq<u8>) -> Result<C2SPacketModel, DecodeError> {
    if id == 0x0C {
        match <C2SContainerClose as Wire>::spec_read(body) {
            Ok((m, _)) => Ok(C2SPacketModel::ContainerClose(m)),
            Err(e) => Err(e),
        }
    } else if id == 0x0D {
        match <C2SCustomPayload as Wire>::spec_read(body) {
            Ok((m, _)) => Ok(C2SPacketModel::CustomPayload(m)),
            Err(e) => Err(e),
        }
    } else if id == 0x0E {
        match <C2SEditBook as Wire>::spec_read(body) {
            Ok((m, _)) => Ok(C2SPacketModel::EditBook(m)),
            Err(e) => Err(e),
        }
    } else if id == 0x0F {
        match <C2SQueryEntityNbt as Wire>::spec_read(body) {
            Ok((m, _)) => Ok(C2SPacketModel::QueryEntityNbt(m)),
            Err(e) => Err(e),
        }
    } else if id == 0x10 {
        match <C2SInteract as Wire>::spec_read(body) {
            Ok((m, _)) => Ok(C2SPacketModel::Interact(m)),
            Err(e) => Err(e),
        }
    } else if id == 0x11 {
        match <C2SGenerateStructure as Wire>::spec_read(body) {
            Ok((m, _)) => Ok(C2SPacketModel::GenerateStructure(m)),
            Err(e) => Err(e),
        }
    } else {
        Err(DecodeError::UnknownPacket)
    }
}

/// The Play packets with ids from 0x12 to 0x17.
pub open spec fn spec_decode_c2s_packet_play_3(id: i32, body: Seq<u8>) -> Result<C2SPacketModel, DecodeError> {
    if id == 0x12 {
        match <C2SKeepAlive as Wire>::spec_read(body) {
            Ok((m, _)) => Ok(C2SPacketModel::KeepAlive(m)),
            Err(e) => Err(e),
        }
    } else if id == 0x13 {
        match <C2SLockDifficulty as Wire>::spec_read(body) {
            Ok((m, _)) => Ok(C2SPacketModel::LockDifficulty(m)),
            Err(e) => Err(e),
        }
    } else if id == 0x14 {
        match <C2SPlayerPos as Wire>::spec_read(body) {
            Ok((m, _)) => Ok(C2SPacketModel::PlayerPos(m)),
            Err(e) => Err(e),
        }
    } else if id == 0x15 {
        match <C2SPlayerPosRot as Wire>::spec_read(body) {
            Ok((m, _)) => Ok(C2SPacketModel::PlayerPosRot(m)),
            Err(e) => Err(e),
        }
    } else if id == 0x16 {
        match <C2SPlayerRot as Wire>::spec_read(body) {
            Ok((m, _)) => Ok(C2SPacketModel::PlayerRot(m)),
            Err(e) => Err(e),
        }
    } else if id == 0x17 {
        match <C2SPlayerStatusOnly as Wire>::spec_read(body) {
            Ok((m, _)) => Ok(C2SPacketModel::PlayerStatusOnly(m)),
            Err(e) => Err(e),
        }
    } else {
        Err(DecodeError::UnknownPacket)
    }
}

/// The Play packets with ids from 0x18 to 0x1D.
pub open spec fn spec_decode_c2s_packet_play_4(id: i32, body: Seq<u8>) -> Result<C2SPacketModel, DecodeError> {
    if id == 0x18 {
        match <C2SMoveVehicle as Wire>::spec_read(body) {
            Ok((m, _)) => Ok(C2SPacketModel::MoveVehicle(m)),
            Err(e) => Err(e),
        }
    } else if id == 0x19 {
        match <C2SPaddleBoat as Wire>::spec_read(body) {
            Ok((m, _)) => Ok(C2SPacketModel::PaddleBoat(m)),
            Err(e) => Err(e),
        }
    } else if id == 0x1A {
        match <C2SPickItem as Wire>::spec_read(body) {
            Ok((m, _)) => Ok(C2SPacketModel::PickItem(m)),
            Err(e) => Err(e),
        }
    } else if id == 0x1B {
        match <C2SPlaceRecipe as Wire>::spec_read(body) {
            Ok((m, _)) => Ok(C2SPacketModel::PlaceRecipe(m)),
            Err(e) => Err(e),
        }
    } else if id == 0x1C {
        match <C2SPlayerAbilities as Wire>::spec_read(body) {
            Ok((m, _)) => Ok(C2SPacketModel::PlayerAbilities(m)),
            Err(e) => Err(e),
        }
    } else if id == 0x1D {
        match <C2SPlayerAction as Wire>::spec_read(body) {
            Ok((m, _)) => Ok(C2SPacketModel::PlayerAction(m)),
            Err(e) => Err(e),
        }
    } else {
        Err(DecodeError::UnknownPacket)
    }
}

/// The Play packets with ids from 0x1E to 0x23.
pub open spec fn spec_decode_c2s_packet_play_5(id: i32, body: Seq<u8>) -> Result<C2SPacketModel, DecodeError> {
    if id == 0x1E {
        match <C2SPlayerCommand as Wire>::spec_read(body) {
            Ok((m, _)) => Ok(C2SPacketModel::PlayerCommand(m)),
            Err(e) => Err(e),
        }
    } else if id == 0x1F {
        match <C2SPlayerInput as Wire>::spec_read(body) {
            Ok((m, _)) => Ok(C2SPacketModel::PlayerInput(m)),
            Err(e) => Err(e),
        }
    } else if id == 0x20 {
        match <C2SPong as Wire>::spec_read(body) {
            Ok((m, _)) => Ok(C2SPacketModel::Pong(m)),
            Err(e) => Err(e),
        }
    } else if id == 0x21 {
        match <C2SRecipeBookChangeSettings as Wire>::spec_read(body) {
            Ok((m, _)) => Ok(C2SPacketModel::RecipeBookChangeSettings(m)),
            Err(e) => Err(e),
        }
    } else if id == 0x22 {
        match <C2SRecipeBookSeenRecipe as Wire>::spec_read(body) {
            Ok((m, _)) => Ok(C2SPacketModel::RecipeBookSeenRecipe(m)),
            Err(e) => Err(e),
        }
    } else if id == 0x23 {
        match <C2SRenameItem as Wire>::spec_read(body) {
            Ok((m, _)) => Ok(C2SPacketModel::RenameItem(m)),
            Err(e) => Err(e),
        }
    } else {
        Err(DecodeError::UnknownPacket)
    }
}

/// The Play packets with ids from 0x24 to 0x29.
pub open spec fn spec_decode_c2s_packet_play_6(id: i32, body: Seq<u8>) -> Result<C2SPacketModel, DecodeError> {
    if id == 0x24 {
        match <C2SResourcePack as Wire>::spec_read(body) {
            Ok((m, _)) => Ok(C2SPacketModel::ResourcePack(m)),
            Err(e) => Err(e),
        }
    } else if id == 0x25 {
        match <C2SSeenAdvancements as Wire>::spec_read(body) {
            Ok((m, _)) => Ok(C2SPacketModel::SeenAdvancements(m)),
            Err(e) => Err(e),
        }
    } else if id == 0x26 {
        match <C2SSelectTrade as Wire>::spec_read(body) {
            Ok((m, _)) => Ok(C2SPacketModel::SelectTrade(m)),
            Err(e) => Err(e),
        }
    } else if id == 0x27 {
        match <C2SSetBeacon as Wire>::spec_read(body) {
            Ok((m, _)) => Ok(C2SPacketModel::SetBeacon(m)),
            Err(e) => Err(e),
        }
    } else if id == 0x28 {
        match <C2SSetCarriedItem as Wire>::spec_read(body) {
            Ok((m, _)) => Ok(C2SPacketModel::SetCarriedItem(m)),
            Err(e) => Err(e),
        }
    } else if id == 0x29 {
        match <C2SSetCommandBlock as Wire>::spec_read(body) {
            Ok((m, _)) => Ok(C2SPacketModel::SetCommandBlock(m)),
            Err(e) => Err(e),
        }
    } else {
        Err(DecodeError::UnknownPacket)
    }
}

/// The Play packets with ids from 0x2A to 0x2F.
pub open spec fn spec_decode_c2s_packet_play_7(id: i32, body: Seq<u8>) -> Result<C2SPacketModel, DecodeError> {
    if id == 0x2A {
        match <C2SSetCommandMinecart as Wire>::spec_read(body) {
            Ok((m, _)) => Ok(C2SPacketModel::SetCommandMinecart(m)),
            Err(e) => Err(e),
        }
    } else if id == 0x2B {
        match <C2SSetCreativeModeSlot as Wire>::spec_read(body) {
            Ok((m, _)) => Ok(C2SPacketModel::SetCreativeModeSlot(m)),
            Err(e) => Err(e),
        }
    } else if id == 0x2C {
        match <C2SSetJigsawBlock as Wire>::spec_read(body) {
            Ok((m, _)) => Ok(C2SPacketModel::SetJigsawBlock(m)),
            Err(e) => Err(e),
        }
    } else if id == 0x2D {
        match <C2SSetStructureBlock as Wire>::spec_read(body) {
            Ok((m, _)) => Ok(C2SPacketModel::SetStructureBlock(m)),
            Err(e) => Err(e),
        }
    } else if id == 0x2E {
        match <C2SSignUpdate as Wire>::spec_read(body) {
            Ok((m, _)) => Ok(C2SPacketModel::SignUpdate(m)),
            Err(e) => Err(e),
        }
    } else if id == 0x2F {
        match <C2SSwing as Wire>::spec_read(body) {
            Ok((m, _)) => Ok(C2SPacketModel::Swing(m)),
            Err(e) => Err(e),
        }
    } else {
        Err(DecodeError::UnknownPacket)
    }
}

/// The Play packets with ids from 0x30 to 0x32.
pub open spec fn spec_decode_c2s_packet_play_8(id: i32, body: Seq<u8>) -> Result<C2SPacketModel, DecodeError> {
    if id == 0x30 {
        match <C2SSpectate as Wire>::spec_read(body) {
            Ok((m, _)) => Ok(C2SPacketModel::Spectate(m)),
            Err(e) => Err(e),
        }
    } else if id == 0x31 {
        match <C2SUseItemOn as Wire>::spec_read(body) {
            Ok((m, _)) => Ok(C2SPacketModel::UseItemOn(m)),
            Err(e) => Err(e),
        }
    } else if id == 0x32 {
        match <C2SUseItem as Wire>::spec_read(body) {
            Ok((m, _)) => Ok(C2SPacketModel::UseItem(m)),
            Err(e) => Err(e),
        }
    } else {
        Err(DecodeError::UnknownPacket)
    }
}

/// The bytes of a packet of the group: its id, then its fields.
pub open spec fn spec_encode_c2s_packet(g: C2SPacketModel) -> Seq<u8> {
    match g {
        C2SPacketModel::Handshake(m) => spec_varint_encode(0x00) + <C2SHandshake as Wire>::spec_write(m),
        C2SPacketModel::StatusRequest(m) => spec_varint_encode(0x00) + <C2SStatusRequest as Wire>::spec_write(m),
        C2SPacketModel::Ping(m) => spec_varint_encode(0x01) + <C2SPing as Wire>::spec_write(m),
        C2SPacketModel::LoginStart(m) => spec_varint_encode(0x00) + <C2SLoginStart as Wire>::spec_write(m),
        C2SPacketModel::EncryptionResponse(m) => spec_varint_encode(0x01) + <C2SEncryptionResponse as Wire>::spec_write(m),
        C2SPacketModel::LoginPluginResponse(m) => spec_varint_encode(0x02) + <C2SLoginPluginResponse as Wire>::spec_write(m),
        C2SPacketModel::AcceptTeleportation(m) => spec_varint_encode(0x00) + <C2SAcceptTeleportation as Wire>::spec_write(m),
        C2SPacketModel::QueryBlockNbt(m) => spec_varint_encode(0x01) + <C2SQueryBlockNbt as Wire>::spec_write(m),
        C2SPacketModel::ChangeDifficulty(m) => spec_varint_encode(0x02) + <C2SChangeDifficulty as Wire>::spec_write(m),
        C2SPacketModel::ChatAck(m) => spec_varint_encode(0x03) + <C2SChatAck as Wire>::spec_write(m),
        C2SPacketModel::ChatCommand(m) => spec_varint_encode(0x04) + <C2SChatCommand as Wire>::spec_write(m),
        C2SPacketModel::ChatMessage(m) => spec_varint_encode(0x05) + <C2SChatMessage as Wire>::spec_write(m),
        C2SPacketModel::ChatSessionUpdate(m) => spec_varint_encode(0x06) + <C2SChatSessionUpdate as Wire>::spec_write(m),
        C2SPacketModel::ClientCommand(m) => spec_varint_encode(0x07) + <C2SClientCommand as Wire>::spec_write(m),
        C2SPacketModel::ClientInformation(m) => spec_varint_encode(0x08) + <C2SClientInformation as Wire>::spec_write(m),
        C2SPacketModel::CommandSuggestion(m) => spec_varint_encode(0x09) + <C2SCommandSuggestion as Wire>::spec_write(m),
        C2SPacketModel::EnchantItem(m) => spec_varint_encode(0x0A) + <C2SEnchantItem as Wire>::spec_write(m),
        C2SPacketModel::ContainerClick(m) => spec_varint_encode(0x0B) + <C2SContainerClick as Wire>::spec_write(m),
        C2SPacketModel::ContainerClose(m) => spec_varint_encode(0x0C) + <C2SContainerClose as Wire>::spec_write(m),
        C2SPacketModel::CustomPayload(m) => spec_varint_encode(0x0D) + <C2SCustomPayload as Wire>::spec_write(m),
        C2SPacketModel::EditBook(m) => spec_varint_encode(0x0E) + <C2SEditBook as Wire>::spec_write(m),
        C2SPacketModel::QueryEntityNbt(m) => spec_varint_encode(0x0F) + <C2SQueryEntityNbt as Wire>::spec_write(m),
        C2SPacketModel::Interact(m) => spec_varint_encode(0x10) + <C2SInteract as Wire>::spec_write(m),
        C2SPacketModel::GenerateStructure(m) => spec_varint_encode(0x11) + <C2SGenerateStructure as Wire>::spec_write(m),
        C2SPacketModel::KeepAlive(m) => spec_varint_encode(0x12) + <C2SKeepAlive as Wire>::spec_write(m),
        C2SPacketModel::LockDifficulty(m) => spec_varint_encode(0x13) + <C2SLockDifficulty as Wire>::spec_write(m),
        C2SPacketModel::PlayerPos(m) => spec_varint_encode(0x14) + <C2SPlayerPos as Wire>::spec_write(m),
        C2SPacketModel::PlayerPosRot(m) => spec_varint_encode(0x15) + <C2SPlayerPosRot as Wire>::spec_write(m),
        C2SPacketModel::PlayerRot(m) => spec_varint_encode(0x16) + <C2SPlayerRot as Wire>::spec_write(m),
        C2SPacketModel::PlayerStatusOnly(m) => spec_varint_encode(0x17) + <C2SPlayerStatusOnly as Wire>::spec_write(m),
        C2SPacketModel::MoveVehicle(m) => spec_varint_encode(0x18) + <C2SMoveVehicle as Wire>::spec_write(m),
        C2SPacketModel::PaddleBoat(m) => spec_varint_encode(0x19) + <C2SPaddleBoat as Wire>::spec_write(m),
        C2SPacketModel::PickItem(m) => spec_varint_encode(0x1A) + <C2SPickItem as Wire>::spec_write(m),
        C2SPacketModel::PlaceRecipe(m) => spec_varint_encode(0x1B) + <C2SPlaceRecipe as Wire>::spec_write(m),
        C2SPacketModel::PlayerAbilities(m) => spec_varint_encode(0x1C) + <C2SPlayerAbilities as Wire>::spec_write(m),
        C2SPacketModel::PlayerAction(m) => spec_varint_encode(0x1D) + <C2SPlayerAction as Wire>::spec_write(m),
        C2SPacketModel::PlayerCommand(m) => spec_varint_encode(0x1E) + <C2SPlayerCommand as Wire>::spec_write(m),
        C2SPacketModel::PlayerInput(m) => spec_varint_encode(0x1F) + <C2SPlayerInput as Wire>::spec_write(m),
        C2SPacketModel::Pong(m) => spec_varint_encode(0x20) + <C2SPong as Wire>::spec_write(m),
        C2SPacketModel::RecipeBookChangeSettings(m) => spec_varint_encode(0x21) + <C2SRecipeBookChangeSettings as Wire>::spec_write(m),
        C2SPacketModel::RecipeBookSeenRecipe(m) => spec_varint_encode(0x22) + <C2SRecipeBookSeenRecipe as Wire>::spec_write(m),
        C2SPacketModel::RenameItem(m) => spec_varint_encode(0x23) + <C2SRenameItem as Wire>::spec_write(m),
        C2SPacketModel::ResourcePack(m) => spec_varint_encode(0x24) + <C2SResourcePack as Wire>::spec_write(m),
        C2SPacketModel::SeenAdvancements(m) => spec_varint_encode(0x25) + <C2SSeenAdvancements as Wire>::spec_write(m),
        C2SPacketModel::SelectTrade(m) => spec_varint_encode(0x26) + <C2SSelectTrade as Wire>::spec_write(m),
        C2SPacketModel::SetBeacon(m) => spec_varint_encode(0x27) + <C2SSetBeacon as Wire>::spec_write(m),
        C2SPacketModel::SetCarriedItem(m) => spec_varint_encode(0x28) + <C2SSetCarriedItem as Wire>::spec_write(m),
        C2SPacketModel::SetCommandBlock(m) => spec_varint_encode(0x29) + <C2SSetCommandBlock as Wire>::spec_write(m),
        C2SPacketModel::SetCommandMinecart(m) => spec_varint_encode(0x2A) + <C2SSetCommandMinecart as Wire>::spec_write(m),
        C2SPacketModel::SetCreativeModeSlot(m) => spec_varint_encode(0x2B) + <C2SSetCreativeModeSlot as Wire>::spec_write(m),
        C2SPacketModel::SetJigsawBlock(m) => spec_varint_encode(0x2C) + <C2SSetJigsawBlock as Wire>::spec_write(m),
        C2SPacketModel::SetStructureBlock(m) => spec_varint_encode(0x2D) + <C2SSetStructureBlock as Wire>::spec_write(m),
        C2SPacketModel::SignUpdate(m) => spec_varint_encode(0x2E) + <C2SSignUpdate as Wire>::spec_write(m),
        C2SPacketModel::Swing(m) => spec_varint_encode(0x2F) + <C2SSwing as Wire>::spec_write(m),
        C2SPacketModel::Spectate(m) => spec_varint_encode(0x30) + <C2SSpectate as Wire>::spec_write(m),
        C2SPacketModel::UseItemOn(m) => spec_varint_encode(0x31) + <C2SUseItemOn as Wire>::spec_write(m),
        C2SPacketModel::UseItem(m) => spec_varint_encode(0x32) + <C2SUseItem as Wire>::spec_write(m),
    }
}

/// The state a packet of the group belongs to.
pub open spec fn state_of_c2s_packet(g: C2SPacketModel) -> State {
    match g {
        C2SPacketModel::Handshake(m) => State::Handshake,
        C2SPacketModel::StatusRequest(m) => State::Status,
        C2SPacketModel::Ping(m) => State::Status,
        C2SPacketModel::LoginStart(m) => State::Login,
        C2SPacketModel::EncryptionResponse(m) => State::Login,
        C2SPacketModel::LoginPluginResponse(m) => State::Login,
        C2SPacketModel::AcceptTeleportation(m) => State::Play,
        C2SPacketModel::QueryBlockNbt(m) => State::Play,
        C2SPacketModel::ChangeDifficulty(m) => State::Play,
        C2SPacketModel::ChatAck(m) => State::Play,
        C2SPacketModel::ChatCommand(m) => State::Play,
        C2SPacketModel::ChatMessage(m) => State::Play,
        C2SPacketModel::ChatSessionUpdate(m) => State::Play,
        C2SPacketModel::ClientCommand(m) => State::Play,
        C2SPacketModel::ClientInformation(m) => State::Play,
        C2SPacketModel::CommandSuggestion(m) => State::Play,
        C2SPacketModel::EnchantItem(m) => State::Play,
        C2SPacketModel::ContainerClick(m) => State::Play,
        C2SPacketModel::ContainerClose(m) => State::Play,
        C2SPacketModel::CustomPayload(m) => State::Play,
        C2SPacketModel::EditBook(m) => State::Play,
        C2SPacketModel::QueryEntityNbt(m) => State::Play,
        C2SPacketModel::Interact(m) => State::Play,
        C2SPacketModel::GenerateStructure(m) => State::Play,
        C2SPacketModel::KeepAlive(m) => State::Play,
        C2SPacketModel::LockDifficulty(m) => State::Play,
        C2SPacketModel::PlayerPos(m) => State::Play,
        C2SPacketModel::PlayerPosRot(m) => State::Play,
        C2SPacketModel::PlayerRot(m) => State::Play,
        C2SPacketModel::PlayerStatusOnly(m) => State::Play,
        C2SPacketModel::MoveVehicle(m) => State::Play,
        C2SPacketModel::PaddleBoat(m) => State::Play,
        C2SPacketModel::PickItem(m) => State::Play,
        C2SPacketModel::PlaceRecipe(m) => State::Play,
        C2SPacketModel::PlayerAbilities(m) => State::Play,
        C2SPacketModel::PlayerAction(m) => State::Play,
        C2SPacketModel::PlayerCommand(m) => State::Play,
        C2SPacketModel::PlayerInput(m) => State::Play,
        C2SPacketModel::Pong(m) => State::Play,
        C2SPacketModel::RecipeBookChangeSettings(m) => State::Play,
        C2SPacketModel::RecipeBookSeenRecipe(m) => State::Play,
        C2SPacketModel::RenameItem(m) => State::Play,
        C2SPacketModel::ResourcePack(m) => State::Play,
        C2SPacketModel::SeenAdvancements(m) => State::Play,
        C2SPacketModel::SelectTrade(m) => State::Play,
        C2SPacketModel::SetBeacon(m) => State::Play,
        C2SPacketModel::SetCarriedItem(m) => State::Play,
        C2SPacketModel::SetCommandBlock(m) => State::Play,
        C2SPacketModel::SetCommandMinecart(m) => State::Play,
        C2SPacketModel::SetCreativeModeSlot(m) => State::Play,
        C2SPacketModel::SetJigsawBlock(m) => State::Play,
        C2SPacketModel::SetStructureBlock(m) => State::Play,
        C2SPacketModel::SignUpdate(m) => State::Play,
        C2SPacketModel::Swing(m) => State::Play,
        C2SPacketModel::Spectate(m) => State::Play,
        C2SPacketModel::UseItemOn(m) => State::Play,
        C2SPacketModel::UseItem(m) => State::Play,
    }
}

/// The packet's fields have a layout.
pub open spec fn encodable_c2s_packet(g: C2SPacketModel) -> bool {
    match g {
        C2SPacketModel::Handshake(m) => <C2SHandshake as Wire>::encodable(m),
        C2SPacketModel::StatusRequest(m) => <C2SStatusRequest as Wire>::encodable(m),
        C2SPacketModel::Ping(m) => <C2SPing as Wire>::encodable(m),
        C2SPacketModel::LoginStart(m) => <C2SLoginStart as Wire>::encodable(m),
        C2SPacketModel::EncryptionResponse(m) => <C2SEncryptionResponse as Wire>::encodable(m),
        C2SPacketModel::LoginPluginResponse(m) => <C2SLoginPluginResponse as Wire>::encodable(m),
        C2SPacketModel::AcceptTeleportation(m) => <C2SAcceptTeleportation as Wire>::encodable(m),
        C2SPacketModel::QueryBlockNbt(m) => <C2SQueryBlockNbt as Wire>::encodable(m),
        C2SPacketModel::ChangeDifficulty(m) => <C2SChangeDifficulty as Wire>::encodable(m),
        C2SPacketModel::ChatAck(m) => <C2SChatAck as Wire>::encodable(m),
        C2SPacketModel::ChatCommand(m) => <C2SChatCommand as Wire>::encodable(m),
        C2SPacketModel::ChatMessage(m) => <C2SChatMessage as Wire>::encodable(m),
        C2SPacketModel::ChatSessionUpdate(m) => <C2SChatSessionUpdate as Wire>::encodable(m),
        C2SPacketModel::ClientCommand(m) => <C2SClientCommand as Wire>::encodable(m),
        C2SPacketModel::ClientInformation(m) => <C2SClientInformation as Wire>::encodable(m),
        C2SPacketModel::CommandSuggestion(m) => <C2SCommandSuggestion as Wire>::encodable(m),
        C2SPacketModel::EnchantItem(m) => <C2SEnchantItem as Wire>::encodable(m),
        C2SPacketModel::ContainerClick(m) => <C2SContainerClick as Wire>::encodable(m),
        C2SPacketModel::ContainerClose(m) => <C2SContainerClose as Wire>::encodable(m),
        C2SPacketModel::CustomPayload(m) => <C2SCustomPayload as Wire>::encodable(m),
        C2SPacketModel::EditBook(m) => <C2SEditBook as Wire>::encodable(m),
        C2SPacketModel::QueryEntityNbt(m) => <C2SQueryEntityNbt as Wire>::encodable(m),
        C2SPacketModel::Interact(m) => <C2SInteract as Wire>::encodable(m),
        C2SPacketModel::GenerateStructure(m) => <C2SGenerateStructure as Wire>::encodable(m),
        C2SPacketModel::KeepAlive(m) => <C2SKeepAlive as Wire>::encodable(m),
        C2SPacketModel::LockDifficulty(m) => <C2SLockDifficulty as Wire>::encodable(m),
        C2SPacketModel::PlayerPos(m) => <C2SPlayerPos as Wire>::encodable(m),
        C2SPacketModel::PlayerPosRot(m) => <C2SPlayerPosRot as Wire>::encodable(m),
        C2SPacketModel::PlayerRot(m) => <C2SPlayerRot as Wire>::encodable(m),
        C2SPacketModel::PlayerStatusOnly(m) => <C2SPlayerStatusOnly as Wire>::encodable(m),
        C2SPacketModel::MoveVehicle(m) => <C2SMoveVehicle as Wire>::encodable(m),
        C2SPacketModel::PaddleBoat(m) => <C2SPaddleBoat as Wire>::encodable(m),
        C2SPacketModel::PickItem(m) => <C2SPickItem as Wire>::encodable(m),
        C2SPacketModel::PlaceRecipe(m) => <C2SPlaceRecipe as Wire>::encodable(m),
        C2SPacketModel::PlayerAbilities(m) => <C2SPlayerAbilities as Wire>::encodable(m),
        C2SPacketModel::PlayerAction(m) => <C2SPlayerAction as Wire>::encodable(m),
        C2SPacketModel::PlayerCommand(m) => <C2SPlayerCommand as Wire>::encodable(m),
        C2SPacketModel::PlayerInput(m) => <C2SPlayerInput as Wire>::encodable(m),
        C2SPacketModel::Pong(m) => <C2SPong as Wire>::encodable(m),
        C2SPacketModel::RecipeBookChangeSettings(m) => <C2SRecipeBookChangeSettings as Wire>::encodable(m),
        C2SPacketModel::RecipeBookSeenRecipe(m) => <C2SRecipeBookSeenRecipe as Wire>::encodable(m),
        C2SPacketModel::RenameItem(m) => <C2SRenameItem as Wire>::encodable(m),
        C2SPacketModel::ResourcePack(m) => <C2SResourcePack as Wire>::encodable(m),
        C2SPacketModel::SeenAdvancements(m) => <C2SSeenAdvancements as Wire>::encodable(m),
        C2SPacketModel::SelectTrade(m) => <C2SSelectTrade as Wire>::encodable(m),
        C2SPacketModel::SetBeacon(m) => <C2SSetBeacon as Wire>::encodable(m),
        C2SPacketModel::SetCarriedItem(m) => <C2SSetCarriedItem as Wire>::encodable(m),
        C2SPacketModel::SetCommandBlock(m) => <C2SSetCommandBlock as Wire>::encodable(m),
        C2SPacketModel::SetCommandMinecart(m) => <C2SSetCommandMinecart as Wire>::encodable(m),
        C2SPacketModel::SetCreativeModeSlot(m) => <C2SSetCreativeModeSlot as Wire>::encodable(m),
        C2SPacketModel::SetJigsawBlock(m) => <C2SSetJigsawBlock as Wire>::encodable(m),
        C2SPacketModel::SetStructureBlock(m) => <C2SSetStructureBlock as Wire>::encodable(m),
        C2SPacketModel::SignUpdate(m) => <C2SSignUpdate as Wire>::encodable(m),
        C2SPacketModel::Swing(m) => <C2SSwing as Wire>::encodable(m),
        C2SPacketModel::Spectate(m) => <C2SSpectate as Wire>::encodable(m),
        C2SPacketModel::UseItemOn(m) => <C2SUseItemOn as Wire>::encodable(m),
        C2SPacketModel::UseItem(m) => <C2SUseItem as Wire>::encodable(m),
    }
}

/// The packet's last field takes every remaining byte.
pub open spec fn greedy_c2s_packet(g: C2SPacketModel) -> bool {
    match g {
        C2SPacketModel::Handshake(m) => <C2SHandshake as Wire>::greedy(),
        C2SPacketModel::StatusRequest(m) => <C2SStatusRequest as Wire>::greedy(),
        C2SPacketModel::Ping(m) => <C2SPing as Wire>::greedy(),
        C2SPacketModel::LoginStart(m) => <C2SLoginStart as Wire>::greedy(),
        C2SPacketModel::EncryptionResponse(m) => <C2SEncryptionResponse as Wire>::greedy(),
        C2SPacketModel::LoginPluginResponse(m) => <C2SLoginPluginResponse as Wire>::greedy(),
        C2SPacketModel::AcceptTeleportation(m) => <C2SAcceptTeleportation as Wire>::greedy(),
        C2SPacketModel::QueryBlockNbt(m) => <C2SQueryBlockNbt as Wire>::greedy(),
        C2SPacketModel::ChangeDifficulty(m) => <C2SChangeDifficulty as Wire>::greedy(),
        C2SPacketModel::ChatAck(m) => <C2SChatAck as Wire>::greedy(),
        C2SPacketModel::ChatCommand(m) => <C2SChatCommand as Wire>::greedy(),
        C2SPacketModel::ChatMessage(m) => <C2SChatMessage as Wire>::greedy(),
        C2SPacketModel::ChatSessionUpdate(m) => <C2SChatSessionUpdate as Wire>::greedy(),
        C2SPacketModel::ClientCommand(m) => <C2SClientCommand as Wire>::greedy(),
        C2SPacketModel::ClientInformation(m) => <C2SClientInformation as Wire>::greedy(),
        C2SPacketModel::CommandSuggestion(m) => <C2SCommandSuggestion as Wire>::greedy(),
        C2SPacketModel::EnchantItem(m) => <C2SEnchantItem as Wire>::greedy(),
        C2SPacketModel::ContainerClick(m) => <C2SContainerClick as Wire>::greedy(),
        C2SPacketModel::ContainerClose(m) => <C2SContainerClose as Wire>::greedy(),
        C2SPacketModel::CustomPayload(m) => <C2SCustomPayload as Wire>::greedy(),
        C2SPacketModel::EditBook(m) => <C2SEditBook as Wire>::greedy(),
        C2SPacketModel::QueryEntityNbt(m) => <C2SQueryEntityNbt as Wire>::greedy(),
        C2SPacketModel::Interact(m) => <C2SInteract as Wire>::greedy(),
        C2SPacketModel::GenerateStructure(m) => <C2SGenerateStructure as Wire>::greedy(),
        C2SPacketModel::KeepAlive(m) => <C2SKeepAlive as Wire>::greedy(),
        C2SPacketModel::LockDifficulty(m) => <C2SLockDifficulty as Wire>::greedy(),
        C2SPacketModel::PlayerPos(m) => <C2SPlayerPos as Wire>::greedy(),
        C2SPacketModel::PlayerPosRot(m) => <C2SPlayerPosRot as Wire>::greedy(),
        C2SPacketModel::PlayerRot(m) => <C2SPlayerRot as Wire>::greedy(),
        C2SPacketModel::PlayerStatusOnly(m) => <C2SPlayerStatusOnly as Wire>::greedy(),
        C2SPacketModel::MoveVehicle(m) => <C2SMoveVehicle as Wire>::greedy(),
        C2SPacketModel::PaddleBoat(m) => <C2SPaddleBoat as Wire>::greedy(),
        C2SPacketModel::PickItem(m) => <C2SPickItem as Wire>::greedy(),
        C2SPacketModel::PlaceRecipe(m) => <C2SPlaceRecipe as Wire>::greedy(),
        C2SPacketModel::PlayerAbilities(m) => <C2SPlayerAbilities as Wire>::greedy(),
        C2SPacketModel::PlayerAction(m) => <C2SPlayerAction as Wire>::greedy(),
        C2SPacketModel::PlayerCommand(m) => <C2SPlayerCommand as Wire>::greedy(),
        C2SPacketModel::PlayerInput(m) => <C2SPlayerInput as Wire>::greedy(),
        C2SPacketModel::Pong(m) => <C2SPong as Wire>::greedy(),
        C2SPacketModel::RecipeBookChangeSettings(m) => <C2SRecipeBookChangeSettings as Wire>::greedy(),
        C2SPacketModel::RecipeBookSeenRecipe(m) => <C2SRecipeBookSeenRecipe as Wire>::greedy(),
        C2SPacketModel::RenameItem(m) => <C2SRenameItem as Wire>::greedy(),
        C2SPacketModel::ResourcePack(m) => <C2SResourcePack as Wire>::greedy(),
        C2SPacketModel::SeenAdvancements(m) => <C2SSeenAdvancements as Wire>::greedy(),
        C2SPacketModel::SelectTrade(m) => <C2SSelectTrade as Wire>::greedy(),
        C2SPacketModel::SetBeacon(m) => <C2SSetBeacon as Wire>::greedy(),
        C2SPacketModel::SetCarriedItem(m) => <C2SSetCarriedItem as Wire>::greedy(),
        C2SPacketModel::SetCommandBlock(m) => <C2SSetCommandBlock as Wire>::greedy(),
        C2SPacketModel::SetCommandMinecart(m) => <C2SSetCommandMinecart as Wire>::greedy(),
        C2SPacketModel::SetCreativeModeSlot(m) => <C2SSetCreativeModeSlot as Wire>::greedy(),
        C2SPacketModel::SetJigsawBlock(m) => <C2SSetJigsawBlock as Wire>::greedy(),
        C2SPacketModel::SetStructureBlock(m) => <C2SSetStructureBlock as Wire>::greedy(),
        C2SPacketModel::SignUpdate(m) => <C2SSignUpdate as Wire>::greedy(),
        C2SPacketModel::Swing(m) => <C2SSwing as Wire>::greedy(),
        C2SPacketModel::Spectate(m) => <C2SSpectate as Wire>::greedy(),
        C2SPacketModel::UseItemOn(m) => <C2SUseItemOn as Wire>::greedy(),
        C2SPacketModel::UseItem(m) => <C2SUseItem as Wire>::greedy(),
    }
}

/// The packet's layout can be read back (no greedy field is followed by another).
pub open spec fn decodable_c2s_packet(g: C2SPacketModel) -> bool {
    match g {
        C2SPacketModel::Handshake(m) => <C2SHandshake as Wire>::decodable(),
        C2SPacketModel::StatusRequest(m) => <C2SStatusRequest as Wire>::decodable(),
        C2SPacketModel::Ping(m) => <C2SPing as Wire>::decodable(),
        C2SPacketModel::LoginStart(m) => <C2SLoginStart as Wire>::decodable(),
        C2SPacketModel::EncryptionResponse(m) => <C2SEncryptionResponse as Wire>::decodable(),
        C2SPacketModel::LoginPluginResponse(m) => <C2SLoginPluginResponse as Wire>::decodable(),
        C2SPacketModel::AcceptTeleportation(m) => <C2SAcceptTeleportation as Wire>::decodable(),
        C2SPacketModel::QueryBlockNbt(m) => <C2SQueryBlockNbt as Wire>::decodable(),
        C2SPacketModel::ChangeDifficulty(m) => <C2SChangeDifficulty as Wire>::decodable(),
        C2SPacketModel::ChatAck(m) => <C2SChatAck as Wire>::decodable(),
        C2SPacketModel::ChatCommand(m) => <C2SChatCommand as Wire>::decodable(),
        C2SPacketModel::ChatMessage(m) => <C2SChatMessage as Wire>::decodable(),
        C2SPacketModel::ChatSessionUpdate(m) => <C2SChatSessionUpdate as Wire>::decodable(),
        C2SPacketModel::ClientCommand(m) => <C2SClientCommand as Wire>::decodable(),
        C2SPacketModel::ClientInformation(m) => <C2SClientInformation as Wire>::decodable(),
        C2SPacketModel::CommandSuggestion(m) => <C2SCommandSuggestion as Wire>::decodable(),
        C2SPacketModel::EnchantItem(m) => <C2SEnchantItem as Wire>::decodable(),
        C2SPacketModel::ContainerClick(m) => <C2SContainerClick as Wire>::decodable(),
        C2SPacketModel::ContainerClose(m) => <C2SContainerClose as Wire>::decodable(),
        C2SPacketModel::CustomPayload(m) => <C2SCustomPayload as Wire>::decodable(),
        C2SPacketModel::EditBook(m) => <C2SEditBook as Wire>::decodable(),
        C2SPacketModel::QueryEntityNbt(m) => <C2SQueryEntityNbt as Wire>::decodable(),
        C2SPacketModel::Interact(m) => <C2SInteract as Wire>::decodable(),
        C2SPacketModel::GenerateStructure(m) => <C2SGenerateStructure as Wire>::decodable(),
        C2SPacketModel::KeepAlive(m) => <C2SKeepAlive as Wire>::decodable(),
        C2SPacketModel::LockDifficulty(m) => <C2SLockDifficulty as Wire>::decodable(),
        C2SPacketModel::PlayerPos(m) => <C2SPlayerPos as Wire>::decodable(),
        C2SPacketModel::PlayerPosRot(m) => <C2SPlayerPosRot as Wire>::decodable(),
        C2SPacketModel::PlayerRot(m) => <C2SPlayerRot as Wire>::decodable(),
        C2SPacketModel::PlayerStatusOnly(m) => <C2SPlayerStatusOnly as Wire>::decodable(),
        C2SPacketModel::MoveVehicle(m) => <C2SMoveVehicle as Wire>::decodable(),
        C2SPacketModel::PaddleBoat(m) => <C2SPaddleBoat as Wire>::decodable(),
        C2SPacketModel::PickItem(m) => <C2SPickItem as Wire>::decodable(),
        C2SPacketModel::PlaceRecipe(m) => <C2SPlaceRecipe as Wire>::decodable(),
        C2SPacketModel::PlayerAbilities(m) => <C2SPlayerAbilities as Wire>::decodable(),
        C2SPacketModel::PlayerAction(m) => <C2SPlayerAction as Wire>::decodable(),
        C2SPacketModel::PlayerCommand(m) => <C2SPlayerCommand as Wire>::decodable(),
        C2SPacketModel::PlayerInput(m) => <C2SPlayerInput as Wire>::decodable(),
        C2SPacketModel::Pong(m) => <C2SPong as Wire>::decodable(),
        C2SPacketModel::RecipeBookChangeSettings(m) => <C2SRecipeBookChangeSettings as Wire>::decodable(),
        C2SPacketModel::RecipeBookSeenRecipe(m) => <C2SRecipeBookSeenRecipe as Wire>::decodable(),
        C2SPacketModel::RenameItem(m) => <C2SRenameItem as Wire>::decodable(),
        C2SPacketModel::ResourcePack(m) => <C2SResourcePack as Wire>::decodable(),
        C2SPacketModel::SeenAdvancements(m) => <C2SSeenAdvancements as Wire>::decodable(),
        C2SPacketModel::SelectTrade(m) => <C2SSelectTrade as Wire>::decodable(),
        C2SPacketModel::SetBeacon(m) => <C2SSetBeacon as Wire>::decodable(),
        C2SPacketModel::SetCarriedItem(m) => <C2SSetCarriedItem as Wire>::decodable(),
        C2SPacketModel::SetCommandBlock(m) => <C2SSetCommandBlock as Wire>::decodable(),
        C2SPacketModel::SetCommandMinecart(m) => <C2SSetCommandMinecart as Wire>::decodable(),
        C2SPacketModel::SetCreativeModeSlot(m) => <C2SSetCreativeModeSlot as Wire>::decodable(),
        C2SPacketModel::SetJigsawBlock(m) => <C2SSetJigsawBlock as Wire>::decodable(),
        C2SPacketModel::SetStructureBlock(m) => <C2SSetStructureBlock as Wire>::decodable(),
        C2SPacketModel::SignUpdate(m) => <C2SSignUpdate as Wire>::decodable(),
        C2SPacketModel::Swing(m) => <C2SSwing as Wire>::decodable(),
        C2SPacketModel::Spectate(m) => <C2SSpectate as Wire>::decodable(),
        C2SPacketModel::UseItemOn(m) => <C2SUseItemOn as Wire>::decodable(),
        C2SPacketModel::UseItem(m) => <C2SUseItem as Wire>::decodable(),
    }
}

proof fn lemma_c2s_packet_roundtrip_handshake(g: C2SPacketModel, rest: Seq<u8>)
    requires
        state_of_c2s_packet(g) == State::Handshake,
        decodable_c2s_packet(g),
        encodable_c2s_packet(g),
        !greedy_c2s_packet(g) || rest.len() == 0,
    ensures
        spec_decode_c2s_packet_handshake(
            match g {
                C2SPacketModel::Handshake(_) => 0x00,
                C2SPacketModel::StatusRequest(_) => 0x00,
                C2SPacketModel::Ping(_) => 0x01,
                C2SPacketModel::LoginStart(_) => 0x00,
                C2SPacketModel::EncryptionResponse(_) => 0x01,
                C2SPacketModel::LoginPluginResponse(_) => 0x02,
                C2SPacketModel::AcceptTeleportation(_) => 0x00,
                C2SPacketModel::QueryBlockNbt(_) => 0x01,
                C2SPacketModel::ChangeDifficulty(_) => 0x02,
                C2SPacketModel::ChatAck(_) => 0x03,
                C2SPacketModel::ChatCommand(_) => 0x04,
                C2SPacketModel::ChatMessage(_) => 0x05,
                C2SPacketModel::ChatSessionUpdate(_) => 0x06,
                C2SPacketModel::ClientCommand(_) => 0x07,
                C2SPacketModel::ClientInformation(_) => 0x08,
                C2SPacketModel::CommandSuggestion(_) => 0x09,
                C2SPacketModel::EnchantItem(_) => 0x0A,
                C2SPacketModel::ContainerClick(_) => 0x0B,
                C2SPacketModel::ContainerClose(_) => 0x0C,
                C2SPacketModel::CustomPayload(_) => 0x0D,
                C2SPacketModel::EditBook(_) => 0x0E,
                C2SPacketModel::QueryEntityNbt(_) => 0x0F,
                C2SPacketModel::Interact(_) => 0x10,
                C2SPacketModel::GenerateStructure(_) => 0x11,
                C2SPacketModel::KeepAlive(_) => 0x12,
                C2SPacketModel::LockDifficulty(_) => 0x13,
                C2SPacketModel::PlayerPos(_) => 0x14,
                C2SPacketModel::PlayerPosRot(_) => 0x15,
                C2SPacketModel::PlayerRot(_) => 0x16,
                C2SPacketModel::PlayerStatusOnly(_) => 0x17,
                C2SPacketModel::MoveVehicle(_) => 0x18,
                C2SPacketModel::PaddleBoat(_) => 0x19,
                C2SPacketModel::PickItem(_) => 0x1A,
                C2SPacketModel::PlaceRecipe(_) => 0x1B,
                C2SPacketModel::PlayerAbilities(_) => 0x1C,
                C2SPacketModel::PlayerAction(_) => 0x1D,
                C2SPacketModel::PlayerCommand(_) => 0x1E,
                C2SPacketModel::PlayerInput(_) => 0x1F,
                C2SPacketModel::Pong(_) => 0x20,
                C2SPacketModel::RecipeBookChangeSettings(_) => 0x21,
                C2SPacketModel::RecipeBookSeenRecipe(_) => 0x22,
                C2SPacketModel::RenameItem(_) => 0x23,
                C2SPacketModel::ResourcePack(_) => 0x24,
                C2SPacketModel::SeenAdvancements(_) => 0x25,
                C2SPacketModel::SelectTrade(_) => 0x26,
                C2SPacketModel::SetBeacon(_) => 0x27,
                C2SPacketModel::SetCarriedItem(_) => 0x28,
                C2SPacketModel::SetCommandBlock(_) => 0x29,
                C2SPacketModel::SetCommandMinecart(_) => 0x2A,
                C2SPacketModel::SetCreativeModeSlot(_) => 0x2B,
                C2SPacketModel::SetJigsawBlock(_) => 0x2C,
                C2SPacketModel::SetStructureBlock(_) => 0x2D,
                C2SPacketModel::SignUpdate(_) => 0x2E,
                C2SPacketModel::Swing(_) => 0x2F,
                C2SPacketModel::Spectate(_) => 0x30,
                C2SPacketModel::UseItemOn(_) => 0x31,
                C2SPacketModel::UseItem(_) => 0x32,
            },
            match g {
                C2SPacketModel::Handshake(m) => <C2SHandshake as Wire>::spec_write(m) + rest,
                C2SPacketModel::StatusRequest(m) => <C2SStatusRequest as Wire>::spec_write(m) + rest,
                C2SPacketModel::Ping(m) => <C2SPing as Wire>::spec_write(m) + rest,
                C2SPacketModel::LoginStart(m) => <C2SLoginStart as Wire>::spec_write(m) + rest,
                C2SPacketModel::EncryptionResponse(m) => <C2SEncryptionResponse as Wire>::spec_write(m) + rest,
                C2SPacketModel::LoginPluginResponse(m) => <C2SLoginPluginResponse as Wire>::spec_write(m) + rest,
                C2SPacketModel::AcceptTeleportation(m) => <C2SAcceptTeleportation as Wire>::spec_write(m) + rest,
                C2SPacketModel::QueryBlockNbt(m) => <C2SQueryBlockNbt as Wire>::spec_write(m) + rest,
                C2SPacketModel::ChangeDifficulty(m) => <C2SChangeDifficulty as Wire>::spec_write(m) + rest,
                C2SPacketModel::ChatAck(m) => <C2SChatAck as Wire>::spec_write(m) + rest,
                C2SPacketModel::ChatCommand(m) => <C2SChatCommand as Wire>::spec_write(m) + rest,
                C2SPacketModel::ChatMessage(m) => <C2SChatMessage as Wire>::spec_write(m) + rest,
                C2SPacketModel::ChatSessionUpdate(m) => <C2SChatSessionUpdate as Wire>::spec_write(m) + rest,
                C2SPacketModel::ClientCommand(m) => <C2SClientCommand as Wire>::spec_write(m) + rest,
                C2SPacketModel::ClientInformation(m) => <C2SClientInformation as Wire>::spec_write(m) + rest,
                C2SPacketModel::CommandSuggestion(m) => <C2SCommandSuggestion as Wire>::spec_write(m) + rest,
                C2SPacketModel::EnchantItem(m) => <C2SEnchantItem as Wire>::spec_write(m) + rest,
                C2SPacketModel::ContainerClick(m) => <C2SContainerClick as Wire>::spec_write(m) + rest,
                C2SPacketModel::ContainerClose(m) => <C2SContainerClose as Wire>::spec_write(m) + rest,
                C2SPacketModel::CustomPayload(m) => <C2SCustomPayload as Wire>::spec_write(m) + rest,
                C2SPacketModel::EditBook(m) => <C2SEditBook as Wire>::spec_write(m) + rest,
                C2SPacketModel::QueryEntityNbt(m) => <C2SQueryEntityNbt as Wire>::spec_write(m) + rest,
                C2SPacketModel::Interact(m) => <C2SInteract as Wire>::spec_write(m) + rest,
                C2SPacketModel::GenerateStructure(m) => <C2SGenerateStructure as Wire>::spec_write(m) + rest,
                C2SPacketModel::KeepAlive(m) => <C2SKeepAlive as Wire>::spec_write(m) + rest,
                C2SPacketModel::LockDifficulty(m) => <C2SLockDifficulty as Wire>::spec_write(m) + rest,
                C2SPacketModel::PlayerPos(m) => <C2SPlayerPos as Wire>::spec_write(m) + rest,
                C2SPacketModel::PlayerPosRot(m) => <C2SPlayerPosRot as Wire>::spec_write(m) + rest,
                C2SPacketModel::PlayerRot(m) => <C2SPlayerRot as Wire>::spec_write(m) + rest,
                C2SPacketModel::PlayerStatusOnly(m) => <C2SPlayerStatusOnly as Wire>::spec_write(m) + rest,
                C2SPacketModel::MoveVehicle(m) => <C2SMoveVehicle as Wire>::spec_write(m) + rest,
                C2SPacketModel::PaddleBoat(m) => <C2SPaddleBoat as Wire>::spec_write(m) + rest,
                C2SPacketModel::PickItem(m) => <C2SPickItem as Wire>::spec_write(m) + rest,
                C2SPacketModel::PlaceRecipe(m) => <C2SPlaceRecipe as Wire>::spec_write(m) + rest,
                C2SPacketModel::PlayerAbilities(m) => <C2SPlayerAbilities as Wire>::spec_write(m) + rest,
                C2SPacketModel::PlayerAction(m) => <C2SPlayerAction as Wire>::spec_write(m) + rest,
                C2SPacketModel::PlayerCommand(m) => <C2SPlayerCommand as Wire>::spec_write(m) + rest,
                C2SPacketModel::PlayerInput(m) => <C2SPlayerInput as Wire>::spec_write(m) + rest,
                C2SPacketModel::Pong(m) => <C2SPong as Wire>::spec_write(m) + rest,
                C2SPacketModel::RecipeBookChangeSettings(m) => <C2SRecipeBookChangeSettings as Wire>::spec_write(m) + rest,
                C2SPacketModel::RecipeBookSeenRecipe(m) => <C2SRecipeBookSeenRecipe as Wire>::spec_write(m) + rest,
                C2SPacketModel::RenameItem(m) => <C2SRenameItem as Wire>::spec_write(m) + rest,
                C2SPacketModel::ResourcePack(m) => <C2SResourcePack as Wire>::spec_write(m) + rest,
                C2SPacketModel::SeenAdvancements(m) => <C2SSeenAdvancements as Wire>::spec_write(m) + rest,
                C2SPacketModel::SelectTrade(m) => <C2SSelectTrade as Wire>::spec_write(m) + rest,
                C2SPacketModel::SetBeacon(m) => <C2SSetBeacon as Wire>::spec_write(m) + rest,
                C2SPacketModel::SetCarriedItem(m) => <C2SSetCarriedItem as Wire>::spec_write(m) + rest,
                C2SPacketModel::SetCommandBlock(m) => <C2SSetCommandBlock as Wire>::spec_write(m) + rest,
                C2SPacketModel::SetCommandMinecart(m) => <C2SSetCommandMinecart as Wire>::spec_write(m) + rest,
                C2SPacketModel::SetCreativeModeSlot(m) => <C2SSetCreativeModeSlot as Wire>::spec_write(m) + rest,
                C2SPacketModel::SetJigsawBlock(m) => <C2SSetJigsawBlock as Wire>::spec_write(m) + rest,
                C2SPacketModel::SetStructureBlock(m) => <C2SSetStructureBlock as Wire>::spec_write(m) + rest,
                C2SPacketModel::SignUpdate(m) => <C2SSignUpdate as Wire>::spec_write(m) + rest,
                C2SPacketModel::Swing(m) => <C2SSwing as Wire>::spec_write(m) + rest,
                C2SPacketModel::Spectate(m) => <C2SSpectate as Wire>::spec_write(m) + rest,
                C2SPacketModel::UseItemOn(m) => <C2SUseItemOn as Wire>::spec_write(m) + rest,
                C2SPacketModel::UseItem(m) => <C2SUseItem as Wire>::spec_write(m) + rest,
            },
        ) == Ok::<C2SPacketModel, DecodeError>(g),
{
    match g {
        C2SPacketModel::Handshake(m) => {
            <C2SHandshake as Wire>::lemma_roundtrip(m, rest);
        },
        _ => {},
    }
}

proof fn lemma_c2s_packet_roundtrip_status(g: C2SPacketModel, rest: Seq<u8>)
    requires
        state_of_c2s_packet(g) == State::Status,
        decodable_c2s_packet(g),
        encodable_c2s_packet(g),
        !greedy_c2s_packet(g) || rest.len() == 0,
    ensures
        spec_decode_c2s_packet_status(
            match g {
                C2SPacketModel::Handshake(_) => 0x00,
                C2SPacketModel::StatusRequest(_) => 0x00,
                C2SPacketModel::Ping(_) => 0x01,
                C2SPacketModel::LoginStart(_) => 0x00,
                C2SPacketModel::EncryptionResponse(_) => 0x01,
                C2SPacketModel::LoginPluginResponse(_) => 0x02,
                C2SPacketModel::AcceptTeleportation(_) => 0x00,
                C2SPacketModel::QueryBlockNbt(_) => 0x01,
                C2SPacketModel::ChangeDifficulty(_) => 0x02,
                C2SPacketModel::ChatAck(_) => 0x03,
                C2SPacketModel::ChatCommand(_) => 0x04,
                C2SPacketModel::ChatMessage(_) => 0x05,
                C2SPacketModel::ChatSessionUpdate(_) => 0x06,
                C2SPacketModel::ClientCommand(_) => 0x07,
                C2SPacketModel::ClientInformation(_) => 0x08,
                C2SPacketModel::CommandSuggestion(_) => 0x09,
                C2SPacketModel::EnchantItem(_) => 0x0A,
                C2SPacketModel::ContainerClick(_) => 0x0B,
                C2SPacketModel::ContainerClose(_) => 0x0C,
                C2SPacketModel::CustomPayload(_) => 0x0D,
                C2SPacketModel::EditBook(_) => 0x0E,
                C2SPacketModel::QueryEntityNbt(_) => 0x0F,
                C2SPacketModel::Interact(_) => 0x10,
                C2SPacketModel::GenerateStructure(_) => 0x11,
                C2SPacketModel::KeepAlive(_) => 0x12,
                C2SPacketModel::LockDifficulty(_) => 0x13,
                C2SPacketModel::PlayerPos(_) => 0x14,
                C2SPacketModel::PlayerPosRot(_) => 0x15,
                C2SPacketModel::PlayerRot(_) => 0x16,
                C2SPacketModel::PlayerStatusOnly(_) => 0x17,
                C2SPacketModel::MoveVehicle(_) => 0x18,
                C2SPacketModel::PaddleBoat(_) => 0x19,
                C2SPacketModel::PickItem(_) => 0x1A,
                C2SPacketModel::PlaceRecipe(_) => 0x1B,
                C2SPacketModel::PlayerAbilities(_) => 0x1C,
                C2SPacketModel::PlayerAction(_) => 0x1D,
                C2SPacketModel::PlayerCommand(_) => 0x1E,
                C2SPacketModel::PlayerInput(_) => 0x1F,
                C2SPacketModel::Pong(_) => 0x20,
                C2SPacketModel::RecipeBookChangeSettings(_) => 0x21,
                C2SPacketModel::RecipeBookSeenRecipe(_) => 0x22,
                C2SPacketModel::RenameItem(_) => 0x23,
                C2SPacketModel::ResourcePack(_) => 0x24,
                C2SPacketModel::SeenAdvancements(_) => 0x25,
                C2SPacketModel::SelectTrade(_) => 0x26,
                C2SPacketModel::SetBeacon(_) => 0x27,
                C2SPacketModel::SetCarriedItem(_) => 0x28,
                C2SPacketModel::SetCommandBlock(_) => 0x29,
                C2SPacketModel::SetCommandMinecart(_) => 0x2A,
                C2SPacketModel::SetCreativeModeSlot(_) => 0x2B,
                C2SPacketModel::SetJigsawBlock(_) => 0x2C,
                C2SPacketModel::SetStructureBlock(_) => 0x2D,
                C2SPacketModel::SignUpdate(_) => 0x2E,
                C2SPacketModel::Swing(_) => 0x2F,
                C2SPacketModel::Spectate(_) => 0x30,
                C2SPacketModel::UseItemOn(_) => 0x31,
                C2SPacketModel::UseItem(_) => 0x32,
            },
            match g {
                C2SPacketModel::Handshake(m) => <C2SHandshake as Wire>::spec_write(m) + rest,
                C2SPacketModel::StatusRequest(m) => <C2SStatusRequest as Wire>::spec_write(m) + rest,
                C2SPacketModel::Ping(m) => <C2SPing as Wire>::spec_write(m) + rest,
                C2SPacketModel::LoginStart(m) => <C2SLoginStart as Wire>::spec_write(m) + rest,
                C2SPacketModel::EncryptionResponse(m) => <C2SEncryptionResponse as Wire>::spec_write(m) + rest,
                C2SPacketModel::LoginPluginResponse(m) => <C2SLoginPluginResponse as Wire>::spec_write(m) + rest,
                C2SPacketModel::AcceptTeleportation(m) => <C2SAcceptTeleportation as Wire>::spec_write(m) + rest,
                C2SPacketModel::QueryBlockNbt(m) => <C2SQueryBlockNbt as Wire>::spec_write(m) + rest,
                C2SPacketModel::ChangeDifficulty(m) => <C2SChangeDifficulty as Wire>::spec_write(m) + rest,
                C2SPacketModel::ChatAck(m) => <C2SChatAck as Wire>::spec_write(m) + rest,
                C2SPacketModel::ChatCommand(m) => <C2SChatCommand as Wire>::spec_write(m) + rest,
                C2SPacketModel::ChatMessage(m) => <C2SChatMessage as Wire>::spec_write(m) + rest,
                C2SPacketModel::ChatSessionUpdate(m) => <C2SChatSessionUpdate as Wire>::spec_write(m) + rest,
                C2SPacketModel::ClientCommand(m) => <C2SClientCommand as Wire>::spec_write(m) + rest,
                C2SPacketModel::ClientInformation(m) => <C2SClientInformation as Wire>::spec_write(m) + rest,
                C2SPacketModel::CommandSuggestion(m) => <C2SCommandSuggestion as Wire>::spec_write(m) + rest,
                C2SPacketModel::EnchantItem(m) => <C2SEnchantItem as Wire>::spec_write(m) + rest,
                C2SPacketModel::ContainerClick(m) => <C2SContainerClick as Wire>::spec_write(m) + rest,
                C2SPacketModel::ContainerClose(m) => <C2SContainerClose as Wire>::spec_write(m) + rest,
                C2SPacketModel::CustomPayload(m) => <C2SCustomPayload as Wire>::spec_write(m) + rest,
                C2SPacketModel::EditBook(m) => <C2SEditBook as Wire>::spec_write(m) + rest,
                C2SPacketModel::QueryEntityNbt(m) => <C2SQueryEntityNbt as Wire>::spec_write(m) + rest,
                C2SPacketModel::Interact(m) => <C2SInteract as Wire>::spec_write(m) + rest,
                C2SPacketModel::GenerateStructure(m) => <C2SGenerateStructure as Wire>::spec_write(m) + rest,
                C2SPacketModel::KeepAlive(m) => <C2SKeepAlive as Wire>::spec_write(m) + rest,
                C2SPacketModel::LockDifficulty(m) => <C2SLockDifficulty as Wire>::spec_write(m) + rest,
                C2SPacketModel::PlayerPos(m) => <C2SPlayerPos as Wire>::spec_write(m) + rest,
                C2SPacketModel::PlayerPosRot(m) => <C2SPlayerPosRot as Wire>::spec_write(m) + rest,
                C2SPacketModel::PlayerRot(m) => <C2SPlayerRot as Wire>::spec_write(m) + rest,
                C2SPacketModel::PlayerStatusOnly(m) => <C2SPlayerStatusOnly as Wire>::spec_write(m) + rest,
                C2SPacketModel::MoveVehicle(m) => <C2SMoveVehicle as Wire>::spec_write(m) + rest,
                C2SPacketModel::PaddleBoat(m) => <C2SPaddleBoat as Wire>::spec_write(m) + rest,
                C2SPacketModel::PickItem(m) => <C2SPickItem as Wire>::spec_write(m) + rest,
                C2SPacketModel::PlaceRecipe(m) => <C2SPlaceRecipe as Wire>::spec_write(m) + rest,
                C2SPacketModel::PlayerAbilities(m) => <C2SPlayerAbilities as Wire>::spec_write(m) + rest,
                C2SPacketModel::PlayerAction(m) => <C2SPlayerAction as Wire>::spec_write(m) + rest,
                C2SPacketModel::PlayerCommand(m) => <C2SPlayerCommand as Wire>::spec_write(m) + rest,
                C2SPacketModel::PlayerInput(m) => <C2SPlayerInput as Wire>::spec_write(m) + rest,
                C2SPacketModel::Pong(m) => <C2SPong as Wire>::spec_write(m) + rest,
                C2SPacketModel::RecipeBookChangeSettings(m) => <C2SRecipeBookChangeSettings as Wire>::spec_write(m) + rest,
                C2SPacketModel::RecipeBookSeenRecipe(m) => <C2SRecipeBookSeenRecipe as Wire>::spec_write(m) + rest,
                C2SPacketModel::RenameItem(m) => <C2SRenameItem as Wire>::spec_write(m) + rest,
                C2SPacketModel::ResourcePack(m) => <C2SResourcePack as Wire>::spec_write(m) + rest,
                C2SPacketModel::SeenAdvancements(m) => <C2SSeenAdvancements as Wire>::spec_write(m) + rest,
                C2SPacketModel::SelectTrade(m) => <C2SSelectTrade as Wire>::spec_write(m) + rest,
                C2SPacketModel::SetBeacon(m) => <C2SSetBeacon as Wire>::spec_write(m) + rest,
                C2SPacketModel::SetCarriedItem(m) => <C2SSetCarriedItem as Wire>::spec_write(m) + rest,
                C2SPacketModel::SetCommandBlock(m) => <C2SSetCommandBlock as Wire>::spec_write(m) + rest,
                C2SPacketModel::SetCommandMinecart(m) => <C2SSetCommandMinecart as Wire>::spec_write(m) + rest,
                C2SPacketModel::SetCreativeModeSlot(m) => <C2SSetCreativeModeSlot as Wire>::spec_write(m) + rest,
                C2SPacketModel::SetJigsawBlock(m) => <C2SSetJigsawBlock as Wire>::spec_write(m) + rest,
                C2SPacketModel::SetStructureBlock(m) => <C2SSetStructureBlock as Wire>::spec_write(m) + rest,
                C2SPacketModel::SignUpdate(m) => <C2SSignUpdate as Wire>::spec_write(m) + rest,
                C2SPacketModel::Swing(m) => <C2SSwing as Wire>::spec_write(m) + rest,
                C2SPacketModel::Spectate(m) => <C2SSpectate as Wire>::spec_write(m) + rest,
                C2SPacketModel::UseItemOn(m) => <C2SUseItemOn as Wire>::spec_write(m) + rest,
                C2SPacketModel::UseItem(m) => <C2SUseItem as Wire>::spec_write(m) + rest,
            },
        ) == Ok::<C2SPacketModel, DecodeError>(g),
{
    match g {
        C2SPacketModel::StatusRequest(m) => {
            <C2SStatusRequest as Wire>::lemma_roundtrip(m, rest);
        },
        C2SPacketModel::Ping(m) => {
            <C2SPing as Wire>::lemma_roundtrip(m, rest);
        },
        _ => {},
    }
}

proof fn lemma_c2s_packet_roundtrip_login(g: C2SPacketModel, rest: Seq<u8>)
    requires
        state_of_c2s_packet(g) == State::Login,
        decodable_c2s_packet(g),
        encodable_c2s_packet(g),
        !greedy_c2s_packet(g) || rest.len() == 0,
    ensures
        spec_decode_c2s_packet_login(
            match g {
                C2SPacketModel::Handshake(_) => 0x00,
                C2SPacketModel::StatusRequest(_) => 0x00,
                C2SPacketModel::Ping(_) => 0x01,
                C2SPacketModel::LoginStart(_) => 0x00,
                C2SPacketModel::EncryptionResponse(_) => 0x01,
                C2SPacketModel::LoginPluginResponse(_) => 0x02,
                C2SPacketModel::AcceptTeleportation(_) => 0x00,
                C2SPacketModel::QueryBlockNbt(_) => 0x01,
                C2SPacketModel::ChangeDifficulty(_) => 0x02,
                C2SPacketModel::ChatAck(_) => 0x03,
                C2SPacketModel::ChatCommand(_) => 0x04,
                C2SPacketModel::ChatMessage(_) => 0x05,
                C2SPacketModel::ChatSessionUpdate(_) => 0x06,
                C2SPacketModel::ClientCommand(_) => 0x07,
                C2SPacketModel::ClientInformation(_) => 0x08,
                C2SPacketModel::CommandSuggestion(_) => 0x09,
                C2SPacketModel::EnchantItem(_) => 0x0A,
                C2SPacketModel::ContainerClick(_) => 0x0B,
                C2SPacketModel::ContainerClose(_) => 0x0C,
                C2SPacketModel::CustomPayload(_) => 0x0D,
                C2SPacketModel::EditBook(_) => 0x0E,
                C2SPacketModel::QueryEntityNbt(_) => 0x0F,
                C2SPacketModel::Interact(_) => 0x10,
                C2SPacketModel::GenerateStructure(_) => 0x11,
                C2SPacketModel::KeepAlive(_) => 0x12,
                C2SPacketModel::LockDifficulty(_) => 0x13,
                C2SPacketModel::PlayerPos(_) => 0x14,
                C2SPacketModel::PlayerPosRot(_) => 0x15,
                C2SPacketModel::PlayerRot(_) => 0x16,
                C2SPacketModel::PlayerStatusOnly(_) => 0x17,
                C2SPacketModel::MoveVehicle(_) => 0x18,
                C2SPacketModel::PaddleBoat(_) => 0x19,
                C2SPacketModel::PickItem(_) => 0x1A,
                C2SPacketModel::PlaceRecipe(_) => 0x1B,
                C2SPacketModel::PlayerAbilities(_) => 0x1C,
                C2SPacketModel::PlayerAction(_) => 0x1D,
                C2SPacketModel::PlayerCommand(_) => 0x1E,
                C2SPacketModel::PlayerInput(_) => 0x1F,
                C2SPacketModel::Pong(_) => 0x20,
                C2SPacketModel::RecipeBookChangeSettings(_) => 0x21,
                C2SPacketModel::RecipeBookSeenRecipe(_) => 0x22,
                C2SPacketModel::RenameItem(_) => 0x23,
                C2SPacketModel::ResourcePack(_) => 0x24,
                C2SPacketModel::SeenAdvancements(_) => 0x25,
                C2SPacketModel::SelectTrade(_) => 0x26,
                C2SPacketModel::SetBeacon(_) => 0x27,
                C2SPacketModel::SetCarriedItem(_) => 0x28,
                C2SPacketModel::SetCommandBlock(_) => 0x29,
                C2SPacketModel::SetCommandMinecart(_) => 0x2A,
                C2SPacketModel::SetCreativeModeSlot(_) => 0x2B,
                C2SPacketModel::SetJigsawBlock(_) => 0x2C,
                C2SPacketModel::SetStructureBlock(_) => 0x2D,
                C2SPacketModel::SignUpdate(_) => 0x2E,
                C2SPacketModel::Swing(_) => 0x2F,
                C2SPacketModel::Spectate(_) => 0x30,
                C2SPacketModel::UseItemOn(_) => 0x31,
                C2SPacketModel::UseItem(_) => 0x32,
            },
            match g {
                C2SPacketModel::Handshake(m) => <C2SHandshake as Wire>::spec_write(m) + rest,
                C2SPacketModel::StatusRequest(m) => <C2SStatusRequest as Wire>::spec_write(m) + rest,
                C2SPacketModel::Ping(m) => <C2SPing as Wire>::spec_write(m) + rest,
                C2SPacketModel::LoginStart(m) => <C2SLoginStart as Wire>::spec_write(m) + rest,
                C2SPacketModel::EncryptionResponse(m) => <C2SEncryptionResponse as Wire>::spec_write(m) + rest,
                C2SPacketModel::LoginPluginResponse(m) => <C2SLoginPluginResponse as Wire>::spec_write(m) + rest,
                C2SPacketModel::AcceptTeleportation(m) => <C2SAcceptTeleportation as Wire>::spec_write(m) + rest,
                C2SPacketModel::QueryBlockNbt(m) => <C2SQueryBlockNbt as Wire>::spec_write(m) + rest,
                C2SPacketModel::ChangeDifficulty(m) => <C2SChangeDifficulty as Wire>::spec_write(m) + rest,
                C2SPacketModel::ChatAck(m) => <C2SChatAck as Wire>::spec_write(m) + rest,
                C2SPacketModel::ChatCommand(m) => <C2SChatCommand as Wire>::spec_write(m) + rest,
                C2SPacketModel::ChatMessage(m) => <C2SChatMessage as Wire>::spec_write(m) + rest,
                C2SPacketModel::ChatSessionUpdate(m) => <C2SChatSessionUpdate as Wire>::spec_write(m) + rest,
                C2SPacketModel::ClientCommand(m) => <C2SClientCommand as Wire>::spec_write(m) + rest,
                C2SPacketModel::ClientInformation(m) => <C2SClientInformation as Wire>::spec_write(m) + rest,
                C2SPacketModel::CommandSuggestion(m) => <C2SCommandSuggestion as Wire>::spec_write(m) + rest,
                C2SPacketModel::EnchantItem(m) => <C2SEnchantItem as Wire>::spec_write(m) + rest,
                C2SPacketModel::ContainerClick(m) => <C2SContainerClick as Wire>::spec_write(m) + rest,
                C2SPacketModel::ContainerClose(m) => <C2SContainerClose as Wire>::spec_write(m) + rest,
                C2SPacketModel::CustomPayload(m) => <C2SCustomPayload as Wire>::spec_write(m) + rest,
                C2SPacketModel::EditBook(m) => <C2SEditBook as Wire>::spec_write(m) + rest,
                C2SPacketModel::QueryEntityNbt(m) => <C2SQueryEntityNbt as Wire>::spec_write(m) + rest,
                C2SPacketModel::Interact(m) => <C2SInteract as Wire>::spec_write(m) + rest,
                C2SPacketModel::GenerateStructure(m) => <C2SGenerateStructure as Wire>::spec_write(m) + rest,
                C2SPacketModel::KeepAlive(m) => <C2SKeepAlive as Wire>::spec_write(m) + rest,
                C2SPacketModel::LockDifficulty(m) => <C2SLockDifficulty as Wire>::spec_write(m) + rest,
                C2SPacketModel::PlayerPos(m) => <C2SPlayerPos as Wire>::spec_write(m) + rest,
                C2SPacketModel::PlayerPosRot(m) => <C2SPlayerPosRot as Wire>::spec_write(m) + rest,
                C2SPacketModel::PlayerRot(m) => <C2SPlayerRot as Wire>::spec_write(m) + rest,
                C2SPacketModel::PlayerStatusOnly(m) => <C2SPlayerStatusOnly as Wire>::spec_write(m) + rest,
                C2SPacketModel::MoveVehicle(m) => <C2SMoveVehicle as Wire>::spec_write(m) + rest,
                C2SPacketModel::PaddleBoat(m) => <C2SPaddleBoat as Wire>::spec_write(m) + rest,
                C2SPacketModel::PickItem(m) => <C2SPickItem as Wire>::spec_write(m) + rest,
                C2SPacketModel::PlaceRecipe(m) => <C2SPlaceRecipe as Wire>::spec_write(m) + rest,
                C2SPacketModel::PlayerAbilities(m) => <C2SPlayerAbilities as Wire>::spec_write(m) + rest,
                C2SPacketModel::PlayerAction(m) => <C2SPlayerAction as Wire>::spec_write(m) + rest,
                C2SPacketModel::PlayerCommand(m) => <C2SPlayerCommand as Wire>::spec_write(m) + rest,
                C2SPacketModel::PlayerInput(m) => <C2SPlayerInput as Wire>::spec_write(m) + rest,
                C2SPacketModel::Pong(m) => <C2SPong as Wire>::spec_write(m) + rest,
                C2SPacketModel::RecipeBookChangeSettings(m) => <C2SRecipeBookChangeSettings as Wire>::spec_write(m) + rest,
                C2SPacketModel::RecipeBookSeenRecipe(m) => <C2SRecipeBookSeenRecipe as Wire>::spec_write(m) + rest,
                C2SPacketModel::RenameItem(m) => <C2SRenameItem as Wire>::spec_write(m) + rest,
                C2SPacketModel::ResourcePack(m) => <C2SResourcePack as Wire>::spec_write(m) + rest,
                C2SPacketModel::SeenAdvancements(m) => <C2SSeenAdvancements as Wire>::spec_write(m) + rest,
                C2SPacketModel::SelectTrade(m) => <C2SSelectTrade as Wire>::spec_write(m) + rest,
                C2SPacketModel::SetBeacon(m) => <C2SSetBeacon as Wire>::spec_write(m) + rest,
                C2SPacketModel::SetCarriedItem(m) => <C2SSetCarriedItem as Wire>::spec_write(m) + rest,
                C2SPacketModel::SetCommandBlock(m) => <C2SSetCommandBlock as Wire>::spec_write(m) + rest,
                C2SPacketModel::SetCommandMinecart(m) => <C2SSetCommandMinecart as Wire>::spec_write(m) + rest,
                C2SPacketModel::SetCreativeModeSlot(m) => <C2SSetCreativeModeSlot as Wire>::spec_write(m) + rest,
                C2SPacketModel::SetJigsawBlock(m) => <C2SSetJigsawBlock as Wire>::spec_write(m) + rest,
                C2SPacketModel::SetStructureBlock(m) => <C2SSetStructureBlock as Wire>::spec_write(m) + rest,
                C2SPacketModel::SignUpdate(m) => <C2SSignUpdate as Wire>::spec_write(m) + rest,
                C2SPacketModel::Swing(m) => <C2SSwing as Wire>::spec_write(m) + rest,
                C2SPacketModel::Spectate(m) => <C2SSpectate as Wire>::spec_write(m) + rest,
                C2SPacketModel::UseItemOn(m) => <C2SUseItemOn as Wire>::spec_write(m) + rest,
                C2SPacketModel::UseItem(m) => <C2SUseItem as Wire>::spec_write(m) + rest,
            },
        ) == Ok::<C2SPacketModel, DecodeError>(g),
{
    match g {
        C2SPacketModel::LoginStart(m) => {
            <C2SLoginStart as Wire>::lemma_roundtrip(m, rest);
        },
        C2SPacketModel::EncryptionResponse(m) => {
            <C2SEncryptionResponse as Wire>::lemma_roundtrip(m, rest);
        },
        C2SPacketModel::LoginPluginResponse(m) => {
            <C2SLoginPluginResponse as Wire>::lemma_roundtrip(m, rest);
        },
        _ => {},
    }
}

#[verifier::spinoff_prover]
#[verifier::rlimit(100)]
proof fn lemma_c2s_packet_roundtrip_play(g: C2SPacketModel, rest: Seq<u8>)
    requires
        state_of_c2s_packet(g) == State::Play,
        decodable_c2s_packet(g),
        encodable_c2s_packet(g),
        !greedy_c2s_packet(g) || rest.len() == 0,
    ensures
        spec_decode_c2s_packet_play(
            match g {
                C2SPacketModel::Handshake(_) => 0x00,
                C2SPacketModel::StatusRequest(_) => 0x00,
                C2SPacketModel::Ping(_) => 0x01,
                C2SPacketModel::LoginStart(_) => 0x00,
                C2SPacketModel::EncryptionResponse(_) => 0x01,
                C2SPacketModel::LoginPluginResponse(_) => 0x02,
                C2SPacketModel::AcceptTeleportation(_) => 0x00,
                C2SPacketModel::QueryBlockNbt(_) => 0x01,
                C2SPacketModel::ChangeDifficulty(_) => 0x02,
                C2SPacketModel::ChatAck(_) => 0x03,
                C2SPacketModel::ChatCommand(_) => 0x04,
                C2SPacketModel::ChatMessage(_) => 0x05,
                C2SPacketModel::ChatSessionUpdate(_) => 0x06,
                C2SPacketModel::ClientCommand(_) => 0x07,
                C2SPacketModel::ClientInformation(_) => 0x08,
                C2SPacketModel::CommandSuggestion(_) => 0x09,
                C2SPacketModel::EnchantItem(_) => 0x0A,
                C2SPacketModel::ContainerClick(_) => 0x0B,
                C2SPacketModel::ContainerClose(_) => 0x0C,
                C2SPacketModel::CustomPayload(_) => 0x0D,
                C2SPacketModel::EditBook(_) => 0x0E,
                C2SPacketModel::QueryEntityNbt(_) => 0x0F,
                C2SPacketModel::Interact(_) => 0x10,
                C2SPacketModel::GenerateStructure(_) => 0x11,
                C2SPacketModel::KeepAlive(_) => 0x12,
                C2SPacketModel::LockDifficulty(_) => 0x13,
                C2SPacketModel::PlayerPos(_) => 0x14,
                C2SPacketModel::PlayerPosRot(_) => 0x15,
                C2SPacketModel::PlayerRot(_) => 0x16,
                C2SPacketModel::PlayerStatusOnly(_) => 0x17,
                C2SPacketModel::MoveVehicle(_) => 0x18,
                C2SPacketModel::PaddleBoat(_) => 0x19,
                C2SPacketModel::PickItem(_) => 0x1A,
                C2SPacketModel::PlaceRecipe(_) => 0x1B,
                C2SPacketModel::PlayerAbilities(_) => 0x1C,
                C2SPacketModel::PlayerAction(_) => 0x1D,
                C2SPacketModel::PlayerCommand(_) => 0x1E,
                C2SPacketModel::PlayerInput(_) => 0x1F,
                C2SPacketModel::Pong(_) => 0x20,
                C2SPacketModel::RecipeBookChangeSettings(_) => 0x21,
                C2SPacketModel::RecipeBookSeenRecipe(_) => 0x22,
                C2SPacketModel::RenameItem(_) => 0x23,
                C2SPacketModel::ResourcePack(_) => 0x24,
                C2SPacketModel::SeenAdvancements(_) => 0x25,
                C2SPacketModel::SelectTrade(_) => 0x26,
                C2SPacketModel::SetBeacon(_) => 0x27,
                C2SPacketModel::SetCarriedItem(_) => 0x28,
                C2SPacketModel::SetCommandBlock(_) => 0x29,
                C2SPacketModel::SetCommandMinecart(_) => 0x2A,
                C2SPacketModel::SetCreativeModeSlot(_) => 0x2B,
                C2SPacketModel::SetJigsawBlock(_) => 0x2C,
                C2SPacketModel::SetStructureBlock(_) => 0x2D,
                C2SPacketModel::SignUpdate(_) => 0x2E,
                C2SPacketModel::Swing(_) => 0x2F,
                C2SPacketModel::Spectate(_) => 0x30,
                C2SPacketModel::UseItemOn(_) => 0x31,
                C2SPacketModel::UseItem(_) => 0x32,
            },
            match g {
                C2SPacketModel::Handshake(m) => <C2SHandshake as Wire>::spec_write(m) + rest,
                C2SPacketModel::StatusRequest(m) => <C2SStatusRequest as Wire>::spec_write(m) + rest,
                C2SPacketModel::Ping(m) => <C2SPing as Wire>::spec_write(m) + rest,
                C2SPacketModel::LoginStart(m) => <C2SLoginStart as Wire>::spec_write(m) + rest,
                C2SPacketModel::EncryptionResponse(m) => <C2SEncryptionResponse as Wire>::spec_write(m) + rest,
                C2SPacketModel::LoginPluginResponse(m) => <C2SLoginPluginResponse as Wire>::spec_write(m) + rest,
                C2SPacketModel::AcceptTeleportation(m) => <C2SAcceptTeleportation as Wire>::spec_write(m) + rest,
                C2SPacketModel::QueryBlockNbt(m) => <C2SQueryBlockNbt as Wire>::spec_write(m) + rest,
                C2SPacketModel::ChangeDifficulty(m) => <C2SChangeDifficulty as Wire>::spec_write(m) + rest,
                C2SPacketModel::ChatAck(m) => <C2SChatAck as Wire>::spec_write(m) + rest,
                C2SPacketModel::ChatCommand(m) => <C2SChatCommand as Wire>::spec_write(m) + rest,
                C2SPacketModel::ChatMessage(m) => <C2SChatMessage as Wire>::spec_write(m) + rest,
                C2SPacketModel::ChatSessionUpdate(m) => <C2SChatSessionUpdate as Wire>::spec_write(m) + rest,
                C2SPacketModel::ClientCommand(m) => <C2SClientCommand as Wire>::spec_write(m) + rest,
                C2SPacketModel::ClientInformation(m) => <C2SClientInformation as Wire>::spec_write(m) + rest,
                C2SPacketModel::CommandSuggestion(m) => <C2SCommandSuggestion as Wire>::spec_write(m) + rest,
                C2SPacketModel::EnchantItem(m) => <C2SEnchantItem as Wire>::spec_write(m) + rest,
                C2SPacketModel::ContainerClick(m) => <C2SContainerClick as Wire>::spec_write(m) + rest,
                C2SPacketModel::ContainerClose(m) => <C2SContainerClose as Wire>::spec_write(m) + rest,
                C2SPacketModel::CustomPayload(m) => <C2SCustomPayload as Wire>::spec_write(m) + rest,
                C2SPacketModel::EditBook(m) => <C2SEditBook as Wire>::spec_write(m) + rest,
                C2SPacketModel::QueryEntityNbt(m) => <C2SQueryEntityNbt as Wire>::spec_write(m) + rest,
                C2SPacketModel::Interact(m) => <C2SInteract as Wire>::spec_write(m) + rest,
                C2SPacketModel::GenerateStructure(m) => <C2SGenerateStructure as Wire>::spec_write(m) + rest,
                C2SPacketModel::KeepAlive(m) => <C2SKeepAlive as Wire>::spec_write(m) + rest,
                C2SPacketModel::LockDifficulty(m) => <C2SLockDifficulty as Wire>::spec_write(m) + rest,
                C2SPacketModel::PlayerPos(m) => <C2SPlayerPos as Wire>::spec_write(m) + rest,
                C2SPacketModel::PlayerPosRot(m) => <C2SPlayerPosRot as Wire>::spec_write(m) + rest,
                C2SPacketModel::PlayerRot(m) => <C2SPlayerRot as Wire>::spec_write(m) + rest,
                C2SPacketModel::PlayerStatusOnly(m) => <C2SPlayerStatusOnly as Wire>::spec_write(m) + rest,
                C2SPacketModel::MoveVehicle(m) => <C2SMoveVehicle as Wire>::spec_write(m) + rest,
                C2SPacketModel::PaddleBoat(m) => <C2SPaddleBoat as Wire>::spec_write(m) + rest,
                C2SPacketModel::PickItem(m) => <C2SPickItem as Wire>::spec_write(m) + rest,
                C2SPacketModel::PlaceRecipe(m) => <C2SPlaceRecipe as Wire>::spec_write(m) + rest,
                C2SPacketModel::PlayerAbilities(m) => <C2SPlayerAbilities as Wire>::spec_write(m) + rest,
                C2SPacketModel::PlayerAction(m) => <C2SPlayerAction as Wire>::spec_write(m) + rest,
                C2SPacketModel::PlayerCommand(m) => <C2SPlayerCommand as Wire>::spec_write(m) + rest,
                C2SPacketModel::PlayerInput(m) => <C2SPlayerInput as Wire>::spec_write(m) + rest,
                C2SPacketModel::Pong(m) => <C2SPong as Wire>::spec_write(m) + rest,
                C2SPacketModel::RecipeBookChangeSettings(m) => <C2SRecipeBookChangeSettings as Wire>::spec_write(m) + rest,
                C2SPacketModel::RecipeBookSeenRecipe(m) => <C2SRecipeBookSeenRecipe as Wire>::spec_write(m) + rest,
                C2SPacketModel::RenameItem(m) => <C2SRenameItem as Wire>::spec_write(m) + rest,
                C2SPacketModel::ResourcePack(m) => <C2SResourcePack as Wire>::spec_write(m) + rest,
                C2SPacketModel::SeenAdvancements(m) => <C2SSeenAdvancements as Wire>::spec_write(m) + rest,
                C2SPacketModel::SelectTrade(m) => <C2SSelectTrade as Wire>::spec_write(m) + rest,
                C2SPacketModel::SetBeacon(m) => <C2SSetBeacon as Wire>::spec_write(m) + rest,
                C2SPacketModel::SetCarriedItem(m) => <C2SSetCarriedItem as Wire>::spec_write(m) + rest,
                C2SPacketModel::SetCommandBlock(m) => <C2SSetCommandBlock as Wire>::spec_write(m) + rest,
                C2SPacketModel::SetCommandMinecart(m) => <C2SSetCommandMinecart as Wire>::spec_write(m) + rest,
                C2SPacketModel::SetCreativeModeSlot(m) => <C2SSetCreativeModeSlot as Wire>::spec_write(m) + rest,
                C2SPacketModel::SetJigsawBlock(m) => <C2SSetJigsawBlock as Wire>::spec_write(m) + rest,
                C2SPacketModel::SetStructureBlock(m) => <C2SSetStructureBlock as Wire>::spec_write(m) + rest,
                C2SPacketModel::SignUpdate(m) => <C2SSignUpdate as Wire>::spec_write(m) + rest,
                C2SPacketModel::Swing(m) => <C2SSwing as Wire>::spec_write(m) + rest,
                C2SPacketModel::Spectate(m) => <C2SSpectate as Wire>::spec_write(m) + rest,
                C2SPacketModel::UseItemOn(m) => <C2SUseItemOn as Wire>::spec_write(m) + rest,
                C2SPacketModel::UseItem(m) => <C2SUseItem as Wire>::spec_write(m) + rest,
            },
        ) == Ok::<C2SPacketModel, DecodeError>(g),
{
    match g {
        C2SPacketModel::AcceptTeleportation(m) => {
            <C2SAcceptTeleportation as Wire>::lemma_roundtrip(m, rest);
        },
        C2SPacketModel::QueryBlockNbt(m) => {
            <C2SQueryBlockNbt as Wire>::lemma_roundtrip(m, rest);
        },
        C2SPacketModel::ChangeDifficulty(m) => {
            <C2SChangeDifficulty as Wire>::lemma_roundtrip(m, rest);
        },
        C2SPacketModel::ChatAck(m) => {
            <C2SChatAck as Wire>::lemma_roundtrip(m, rest);
        },
        C2SPacketModel::ChatCommand(m) => {
            <C2SChatCommand as Wire>::lemma_roundtrip(m, rest);
        },
        C2SPacketModel::ChatMessage(m) => {
            <C2SChatMessage as Wire>::lemma_roundtrip(m, rest);
        },
        C2SPacketModel::ChatSessionUpdate(m) => {
            <C2SChatSessionUpdate as Wire>::lemma_roundtrip(m, rest);
        },
        C2SPacketModel::ClientCommand(m) => {
            <C2SClientCommand as Wire>::lemma_roundtrip(m, rest);
        },
        C2SPacketModel::ClientInformation(m) => {
            <C2SClientInformation as Wire>::lemma_roundtrip(m, rest);
        },
        C2SPacketModel::CommandSuggestion(m) => {
            <C2SCommandSuggestion as Wire>::lemma_roundtrip(m, rest);
        },
        C2SPacketModel::EnchantItem(m) => {
            <C2SEnchantItem as Wire>::lemma_roundtrip(m, rest);
        },
        C2SPacketModel::ContainerClick(m) => {
            <C2SContainerClick as Wire>::lemma_roundtrip(m, rest);
        },
        C2SPacketModel::ContainerClose(m) => {
            <C2SContainerClose as Wire>::lemma_roundtrip(m, rest);
        },
        C2SPacketModel::CustomPayload(m) => {
            <C2SCustomPayload as Wire>::lemma_roundtrip(m, rest);
        },
        C2SPacketModel::EditBook(m) => {
            <C2SEditBook as Wire>::lemma_roundtrip(m, rest);
        },
        C2SPacketModel::QueryEntityNbt(m) => {
            <C2SQueryEntityNbt as Wire>::lemma_roundtrip(m, rest);
        },
        C2SPacketModel::Interact(m) => {
            <C2SInteract as Wire>::lemma_roundtrip(m, rest);
        },
        C2SPacketModel::GenerateStructure(m) => {
            <C2SGenerateStructure as Wire>::lemma_roundtrip(m, rest);
        },
        C2SPacketModel::KeepAlive(m) => {
            <C2SKeepAlive as Wire>::lemma_roundtrip(m, rest);
        },
        C2SPacketModel::LockDifficulty(m) => {
            <C2SLockDifficulty as Wire>::lemma_roundtrip(m, rest);
        },
        C2SPacketModel::PlayerPos(m) => {
            <C2SPlayerPos as Wire>::lemma_roundtrip(m, rest);
        },
        C2SPacketModel::PlayerPosRot(m) => {
            <C2SPlayerPosRot as Wire>::lemma_roundtrip(m, rest);
        },
        C2SPacketModel::PlayerRot(m) => {
            <C2SPlayerRot as Wire>::lemma_roundtrip(m, rest);
        },
        C2SPacketModel::PlayerStatusOnly(m) => {
            <C2SPlayerStatusOnly as Wire>::lemma_roundtrip(m, rest);
        },
        C2SPacketModel::MoveVehicle(m) => {
            <C2SMoveVehicle as Wire>::lemma_roundtrip(m, rest);
        },
        C2SPacketModel::PaddleBoat(m) => {
            <C2SPaddleBoat as Wire>::lemma_roundtrip(m, rest);
        },
        C2SPacketModel::PickItem(m) => {
            <C2SPickItem as Wire>::lemma_roundtrip(m, rest);
        },
        C2SPacketModel::PlaceRecipe(m) => {
            <C2SPlaceRecipe as Wire>::lemma_roundtrip(m, rest);
        },
        C2SPacketModel::PlayerAbilities(m) => {
            <C2SPlayerAbilities as Wire>::lemma_roundtrip(m, rest);
        },
        C2SPacketModel::PlayerAction(m) => {
            <C2SPlayerAction as Wire>::lemma_roundtrip(m, rest);
        },
        C2SPacketModel::PlayerCommand(m) => {
            <C2SPlayerCommand as Wire>::lemma_roundtrip(m, rest);
        },
        C2SPacketModel::PlayerInput(m) => {
            <C2SPlayerInput as Wire>::lemma_roundtrip(m, rest);
        },
        C2SPacketModel::Pong(m) => {
            <C2SPong as Wire>::lemma_roundtrip(m, rest);
        },
        C2SPacketModel::RecipeBookChangeSettings(m) => {
            <C2SRecipeBookChangeSettings as Wire>::lemma_roundtrip(m, rest);
        },
        C2SPacketModel::RecipeBookSeenRecipe(m) => {
            <C2SRecipeBookSeenRecipe as Wire>::lemma_roundtrip(m, rest);
        },
        C2SPacketModel::RenameItem(m) => {
            <C2SRenameItem as Wire>::lemma_roundtrip(m, rest);
        },
        C2SPacketModel::ResourcePack(m) => {
            <C2SResourcePack as Wire>::lemma_roundtrip(m, rest);
        },
        C2SPacketModel::SeenAdvancements(m) => {
            <C2SSeenAdvancements as Wire>::lemma_roundtrip(m, rest);
        },
        C2SPacketModel::SelectTrade(m) => {
            <C2SSelectTrade as Wire>::lemma_roundtrip(m, rest);
        },
        C2SPacketModel::SetBeacon(m) => {
            <C2SSetBeacon as Wire>::lemma_roundtrip(m, rest);
        },
        C2SPacketModel::SetCarriedItem(m) => {
            <C2SSetCarriedItem as Wire>::lemma_roundtrip(m, rest);
        },
        C2SPacketModel::SetCommandBlock(m) => {
            <C2SSetCommandBlock as Wire>::lemma_roundtrip(m, rest);
        },
        C2SPacketModel::SetCommandMinecart(m) => {
            <C2SSetCommandMinecart as Wire>::lemma_roundtrip(m, rest);
        },
        C2SPacketModel::SetCreativeModeSlot(m) => {
            <C2SSetCreativeModeSlot as Wire>::lemma_roundtrip(m, rest);
        },
        C2SPacketModel::SetJigsawBlock(m) => {
            <C2SSetJigsawBlock as Wire>::lemma_roundtrip(m, rest);
        },
        C2SPacketModel::SetStructureBlock(m) => {
            <C2SSetStructureBlock as Wire>::lemma_roundtrip(m, rest);
        },
        C2SPacketModel::SignUpdate(m) => {
            <C2SSignUpdate as Wire>::lemma_roundtrip(m, rest);
        },
        C2SPacketModel::Swing(m) => {
            <C2SSwing as Wire>::lemma_roundtrip(m, rest);
        },
        C2SPacketModel::Spectate(m) => {
            <C2SSpectate as Wire>::lemma_roundtrip(m, rest);
        },
        C2SPacketModel::UseItemOn(m) => {
            <C2SUseItemOn as Wire>::lemma_roundtrip(m, rest);
        },
        C2SPacketModel::UseItem(m) => {
            <C2SUseItem as Wire>::lemma_roundtrip(m, rest);
        },
        _ => {},
    }
}

/// Decoding, in its own state, the bytes of any packet of the group gives
/// that packet back, whatever follows it (nothing may follow a packet that
/// ends in raw bytes, and a packet whose raw bytes are followed by more
/// fields cannot be read back).
pub proof fn lemma_c2s_packet_roundtrip(g: C2SPacketModel, rest: Seq<u8>)
    requires
        decodable_c2s_packet(g),
        encodable_c2s_packet(g),
        !greedy_c2s_packet(g) || rest.len() == 0,
    ensures
        spec_decode_c2s_packet(state_of_c2s_packet(g), spec_encode_c2s_packet(g) + rest) == Ok::<C2SPacketModel, DecodeError>(g),
{
    match g {
        C2SPacketModel::Handshake(m) => {
            lemma_header_roundtrip(0x00, <C2SHandshake as Wire>::spec_write(m), rest);
            lemma_c2s_packet_roundtrip_handshake(g, rest);
        },
        C2SPacketModel::StatusRequest(m) => {
            lemma_header_roundtrip(0x00, <C2SStatusRequest as Wire>::spec_write(m), rest);
            lemma_c2s_packet_roundtrip_status(g, rest);
        },
        C2SPacketModel::Ping(m) => {
            lemma_header_roundtrip(0x01, <C2SPing as Wire>::spec_write(m), rest);
            lemma_c2s_packet_roundtrip_status(g, rest);
        },
        C2SPacketModel::LoginStart(m) => {
            lemma_header_roundtrip(0x00, <C2SLoginStart as Wire>::spec_write(m), rest);
            lemma_c2s_packet_roundtrip_login(g, rest);
        },
        C2SPacketModel::EncryptionResponse(m) => {
            lemma_header_roundtrip(0x01, <C2SEncryptionResponse as Wire>::spec_write(m), rest);
            lemma_c2s_packet_roundtrip_login(g, rest);
        },
        C2SPacketModel::LoginPluginResponse(m) => {
            lemma_header_roundtrip(0x02, <C2SLoginPluginResponse as Wire>::spec_write(m), rest);
            lemma_c2s_packet_roundtrip_login(g, rest);
        },
        C2SPacketModel::AcceptTeleportation(m) => {
            lemma_header_roundtrip(0x00, <C2SAcceptTeleportation as Wire>::spec_write(m), rest);
            lemma_c2s_packet_roundtrip_play(g, rest);
        },
        C2SPacketModel::QueryBlockNbt(m) => {
            lemma_header_roundtrip(0x01, <C2SQueryBlockNbt as Wire>::spec_write(m), rest);
            lemma_c2s_packet_roundtrip_play(g, rest);
        },
        C2SPacketModel::ChangeDifficulty(m) => {
            lemma_header_roundtrip(0x02, <C2SChangeDifficulty as Wire>::spec_write(m), rest);
            lemma_c2s_packet_roundtrip_play(g, rest);
        },
        C2SPacketModel::ChatAck(m) => {
            lemma_header_roundtrip(0x03, <C2SChatAck as Wire>::spec_write(m), rest);
            lemma_c2s_packet_roundtrip_play(g, rest);
        },
        C2SPacketModel::ChatCommand(m) => {
            lemma_header_roundtrip(0x04, <C2SChatCommand as Wire>::spec_write(m), rest);
            lemma_c2s_packet_roundtrip_play(g, rest);
        },
        C2SPacketModel::ChatMessage(m) => {
            lemma_header_roundtrip(0x05, <C2SChatMessage as Wire>::spec_write(m), rest);
            lemma_c2s_packet_roundtrip_play(g, rest);
        },
        C2SPacketModel::ChatSessionUpdate(m) => {
            lemma_header_roundtrip(0x06, <C2SChatSessionUpdate as Wire>::spec_write(m), rest);
            lemma_c2s_packet_roundtrip_play(g, rest);
        },
        C2SPacketModel::ClientCommand(m) => {
            lemma_header_roundtrip(0x07, <C2SClientCommand as Wire>::spec_write(m), rest);
            lemma_c2s_packet_roundtrip_play(g, rest);
        },
        C2SPacketModel::ClientInformation(m) => {
            lemma_header_roundtrip(0x08, <C2SClientInformation as Wire>::spec_write(m), rest);
            lemma_c2s_packet_roundtrip_play(g, rest);
        },
        C2SPacketModel::CommandSuggestion(m) => {
            lemma_header_roundtrip(0x09, <C2SCommandSuggestion as Wire>::spec_write(m), rest);
            lemma_c2s_packet_roundtrip_play(g, rest);
        },
        C2SPacketModel::EnchantItem(m) => {
            lemma_header_roundtrip(0x0A, <C2SEnchantItem as Wire>::spec_write(m), rest);
            lemma_c2s_packet_roundtrip_play(g, rest);
        },
        C2SPacketModel::ContainerClick(m) => {
            lemma_header_roundtrip(0x0B, <C2SContainerClick as Wire>::spec_write(m), rest);
            lemma_c2s_packet_roundtrip_play(g, rest);
        },
        C2SPacketModel::ContainerClose(m) => {
            lemma_header_roundtrip(0x0C, <C2SContainerClose as Wire>::spec_write(m), rest);
            lemma_c2s_packet_roundtrip_play(g, rest);
        },
        C2SPacketModel::CustomPayload(m) => {
            lemma_header_roundtrip(0x0D, <C2SCustomPayload as Wire>::spec_write(m), rest);
            lemma_c2s_packet_roundtrip_play(g, rest);
        },
        C2SPacketModel::EditBook(m) => {
            lemma_header_roundtrip(0x0E, <C2SEditBook as Wire>::spec_write(m), rest);
            lemma_c2s_packet_roundtrip_play(g, rest);
        },
        C2SPacketModel::QueryEntityNbt(m) => {
            lemma_header_roundtrip(0x0F, <C2SQueryEntityNbt as Wire>::spec_write(m), rest);
            lemma_c2s_packet_roundtrip_play(g, rest);
        },
        C2SPacketModel::Interact(m) => {
            lemma_header_roundtrip(0x10, <C2SInteract as Wire>::spec_write(m), rest);
            lemma_c2s_packet_roundtrip_play(g, rest);
        },
        C2SPacketModel::GenerateStructure(m) => {
            lemma_header_roundtrip(0x11, <C2SGenerateStructure as Wire>::spec_write(m), rest);
            lemma_c2s_packet_roundtrip_play(g, rest);
        },
        C2SPacketModel::KeepAlive(m) => {
            lemma_header_roundtrip(0x12, <C2SKeepAlive as Wire>::spec_write(m), rest);
            lemma_c2s_packet_roundtrip_play(g, rest);
        },
        C2SPacketModel::LockDifficulty(m) => {
            lemma_header_roundtrip(0x13, <C2SLockDifficulty as Wire>::spec_write(m), rest);
            lemma_c2s_packet_roundtrip_play(g, rest);
        },
        C2SPacketModel::PlayerPos(m) => {
            lemma_header_roundtrip(0x14, <C2SPlayerPos as Wire>::spec_write(m), rest);
            lemma_c2s_packet_roundtrip_play(g, rest);
        },
        C2SPacketModel::PlayerPosRot(m) => {
            lemma_header_roundtrip(0x15, <C2SPlayerPosRot as Wire>::spec_write(m), rest);
            lemma_c2s_packet_roundtrip_play(g, rest);
        },
        C2SPacketModel::PlayerRot(m) => {
            lemma_header_roundtrip(0x16, <C2SPlayerRot as Wire>::spec_write(m), rest);
            lemma_c2s_packet_roundtrip_play(g, rest);
        },
        C2SPacketModel::PlayerStatusOnly(m) => {
            lemma_header_roundtrip(0x17, <C2SPlayerStatusOnly as Wire>::spec_write(m), rest);
            lemma_c2s_packet_roundtrip_play(g, rest);
        },
        C2SPacketModel::MoveVehicle(m) => {
            lemma_header_roundtrip(0x18, <C2SMoveVehicle as Wire>::spec_write(m), rest);
            lemma_c2s_packet_roundtrip_play(g, rest);
        },
        C2SPacketModel::PaddleBoat(m) => {
            lemma_header_roundtrip(0x19, <C2SPaddleBoat as Wire>::spec_write(m), rest);
            lemma_c2s_packet_roundtrip_play(g, rest);
        },
        C2SPacketModel::PickItem(m) => {
            lemma_header_roundtrip(0x1A, <C2SPickItem as Wire>::spec_write(m), rest);
            lemma_c2s_packet_roundtrip_play(g, rest);
        },
        C2SPacketModel::PlaceRecipe(m) => {
            lemma_header_roundtrip(0x1B, <C2SPlaceRecipe as Wire>::spec_write(m), rest);
            lemma_c2s_packet_roundtrip_play(g, rest);
        },
        C2SPacketModel::PlayerAbilities(m) => {
            lemma_header_roundtrip(0x1C, <C2SPlayerAbilities as Wire>::spec_write(m), rest);
            lemma_c2s_packet_roundtrip_play(g, rest);
        },
        C2SPacketModel::PlayerAction(m) => {
            lemma_header_roundtrip(0x1D, <C2SPlayerAction as Wire>::spec_write(m), rest);
            lemma_c2s_packet_roundtrip_play(g, rest);
        },
        C2SPacketModel::PlayerCommand(m) => {
            lemma_header_roundtrip(0x1E, <C2SPlayerCommand as Wire>::spec_write(m), rest);
            lemma_c2s_packet_roundtrip_play(g, rest);
        },
        C2SPacketModel::PlayerInput(m) => {
            lemma_header_roundtrip(0x1F, <C2SPlayerInput as Wire>::spec_write(m), rest);
            lemma_c2s_packet_roundtrip_play(g, rest);
        },
        C2SPacketModel::Pong(m) => {
            lemma_header_roundtrip(0x20, <C2SPong as Wire>::spec_write(m), rest);
            lemma_c2s_packet_roundtrip_play(g, rest);
        },
        C2SPacketModel::RecipeBookChangeSettings(m) => {
            lemma_header_roundtrip(0x21, <C2SRecipeBookChangeSettings as Wire>::spec_write(m), rest);
            lemma_c2s_packet_roundtrip_play(g, rest);
        },
        C2SPacketModel::RecipeBookSeenRecipe(m) => {
            lemma_header_roundtrip(0x22, <C2SRecipeBookSeenRecipe as Wire>::spec_write(m), rest);
            lemma_c2s_packet_roundtrip_play(g, rest);
        },
        C2SPacketModel::RenameItem(m) => {
            lemma_header_roundtrip(0x23, <C2SRenameItem as Wire>::spec_write(m), rest);
            lemma_c2s_packet_roundtrip_play(g, rest);
        },
        C2SPacketModel::ResourcePack(m) => {
            lemma_header_roundtrip(0x24, <C2SResourcePack as Wire>::spec_write(m), rest);
            lemma_c2s_packet_roundtrip_play(g, rest);
        },
        C2SPacketModel::SeenAdvancements(m) => {
            lemma_header_roundtrip(0x25, <C2SSeenAdvancements as Wire>::spec_write(m), rest);
            lemma_c2s_packet_roundtrip_play(g, rest);
        },
        C2SPacketModel::SelectTrade(m) => {
            lemma_header_roundtrip(0x26, <C2SSelectTrade as Wire>::spec_write(m), rest);
            lemma_c2s_packet_roundtrip_play(g, rest);
        },
        C2SPacketModel::SetBeacon(m) => {
            lemma_header_roundtrip(0x27, <C2SSetBeacon as Wire>::spec_write(m), rest);
            lemma_c2s_packet_roundtrip_play(g, rest);
        },
        C2SPacketModel::SetCarriedItem(m) => {
            lemma_header_roundtrip(0x28, <C2SSetCarriedItem as Wire>::spec_write(m), rest);
            lemma_c2s_packet_roundtrip_play(g, rest);
        },
        C2SPacketModel::SetCommandBlock(m) => {
            lemma_header_roundtrip(0x29, <C2SSetCommandBlock as Wire>::spec_write(m), rest);
            lemma_c2s_packet_roundtrip_play(g, rest);
        },
        C2SPacketModel::SetCommandMinecart(m) => {
            lemma_header_roundtrip(0x2A, <C2SSetCommandMinecart as Wire>::spec_write(m), rest);
            lemma_c2s_packet_roundtrip_play(g, rest);
        },
        C2SPacketModel::SetCreativeModeSlot(m) => {
            lemma_header_roundtrip(0x2B, <C2SSetCreativeModeSlot as Wire>::spec_write(m), rest);
            lemma_c2s_packet_roundtrip_play(g, rest);
        },
        C2SPacketModel::SetJigsawBlock(m) => {
            lemma_header_roundtrip(0x2C, <C2SSetJigsawBlock as Wire>::spec_write(m), rest);
            lemma_c2s_packet_roundtrip_play(g, rest);
        },
        C2SPacketModel::SetStructureBlock(m) => {
            lemma_header_roundtrip(0x2D, <C2SSetStructureBlock as Wire>::spec_write(m), rest);
            lemma_c2s_packet_roundtrip_play(g, rest);
        },
        C2SPacketModel::SignUpdate(m) => {
            lemma_header_roundtrip(0x2E, <C2SSignUpdate as Wire>::spec_write(m), rest);
            lemma_c2s_packet_roundtrip_play(g, rest);
        },
        C2SPacketModel::Swing(m) => {
            lemma_header_roundtrip(0x2F, <C2SSwing as Wire>::spec_write(m), rest);
            lemma_c2s_packet_roundtrip_play(g, rest);
        },
        C2SPacketModel::Spectate(m) => {
            lemma_header_roundtrip(0x30, <C2SSpectate as Wire>::spec_write(m), rest);
            lemma_c2s_packet_roundtrip_play(g, rest);
        },
        C2SPacketModel::UseItemOn(m) => {
            lemma_header_roundtrip(0x31, <C2SUseItemOn as Wire>::spec_write(m), rest);
            lemma_c2s_packet_roundtrip_play(g, rest);
        },
        C2SPacketModel::UseItem(m) => {
            lemma_header_roundtrip(0x32, <C2SUseItem as Wire>::spec_write(m), rest);
            lemma_c2s_packet_roundtrip_play(g, rest);
        },
    }
}

} // verus!
