//! The process-wide catalog of wire opcodes: the client-protocol
//! messages and the internal control messages that every service of the
//! cluster shares as a contract artifact.  An opcode that a service does
//! not recognize is dropped, never fatal.

use vstd::prelude::*;

verus! {

/// Control opcode: subscribe the sending connection to a channel.
pub const MD_ADD_CHANNEL: u16 = 9000;

/// Control opcode: unsubscribe the sending connection from a channel.
pub const MD_REMOVE_CHANNEL: u16 = 9001;

/// Control opcode: register a channel range for the sending connection.
pub const MD_ADD_RANGE: u16 = 9002;

/// Control opcode: remove a channel range of the sending connection.
pub const MD_REMOVE_RANGE: u16 = 9003;

/// Control opcode: append a post-remove datagram for the sender.
pub const MD_ADD_POST_REMOVE: u16 = 9010;

/// Control opcode: drop every post-remove datagram of the sender.
pub const MD_CLEAR_POST_REMOVES: u16 = 9011;

/// Every message type of the bus, client-facing and internal.
#[derive(Clone, Copy, PartialEq, Eq, Structural, Debug)]
pub enum Message {
    ClientHello,
    ClientHelloResp,
    ClientDisconnect,
    ClientEject,
    ClientHeartbeat,
    ClientObjectSetField,
    ClientObjectSetFields,
    ClientObjectLeaving,
    ClientObjectLeavingOwner,
    ClientEnterObjectRequired,
    ClientEnterObjectRequiredOther,
    ClientEnterObjectRequiredOwner,
    ClientEnterObjectRequiredOwnerOther,
    ClientDoneInterestResp,
    ClientAddInterest,
    ClientAddInterestMultiple,
    ClientRemoveInterest,
    ClientObjectLocation,
    CASetState,
    CASetClientID,
    CASendDatagram,
    CAEject,
    CADrop,
    CAGetNetworkAddress,
    CAGetNetworkAddressResp,
    CADeclareObject,
    CAUndeclareObject,
    CAAddSessionObject,
    CARemoveSessionObject,
    CASetFieldsSendable,
    CAOpenChannel,
    CACloseChannel,
    CAAddPostRemove,
    CAClearPostRemoves,
    CAAddInterest,
    CAAddInterestMultiple,
    CARemoveInterest,
    SSCreateObjectWithRequired,
    SSCreateObjectWithRequiredOther,
    SSDeleteAIObjects,
    SSObjectGetField,
    SSObjectGetFieldResp,
    SSObjectGetFields,
    SSObjectGetFieldsResp,
    SSObjectGetAll,
    SSObjectGetAllResp,
    SSObjectSetField,
    SSObjectSetFields,
    SSObjectDeleteFieldRAM,
    SSObjectDeleteFieldsRAM,
    SSObjectDeleteRAM,
    SSObjectSetLocation,
    SSObjectChangingLocation,
    SSObjectEnterLocationWithRequired,
    SSObjectEnterLocationWithRequiredOther,
    SSObjectGetLocation,
    SSObjectGetLocationResp,
    SSObjectSetAI,
    SSObjectChangingAI,
    SSObjectEnterAIWithRequired,
    SSObjectEnterAIWithRequiredOther,
    SSObjectGetAI,
    SSObjectGetAIResp,
    SSObjectSetOwner,
    SSObjectChangingOwner,
    SSObjectEnterOwnerWithRequired,
    SSObjectEnterOwnerWithRequiredOther,
    SSObjectGetOwner,
    SSObjectGetOwnerResp,
    SSObjectGetZoneObjects,
    SSObjectGetZonesObjects,
    SSObjectGetChildren,
    SSObjectGetZoneCount,
    SSObjectGetZoneCountResp,
    SSObjectGetZonesCount,
    SSObjectGetZonesCountResp,
    SSObjectGetChildCount,
    SSObjectGetChildCountResp,
    SSObjectDeleteZone,
    SSObjectDeleteZones,
    SSObjectDeleteChildren,
    DBSSObjectActivateWithDefaults,
    DBSSObjectActivateWithDefaultsOther,
    DBSSObjectGetActivated,
    DBSSObjectGetActivatedResp,
    DBSSObjectDeleteFieldDisk,
    DBSSObjectDeleteFieldsDisk,
    DBSSObjectDeleteDisk,
    DBCreateObject,
    DBCreateObjectResp,
    DBObjectGetField,
    DBObjectGetFieldResp,
    DBObjectGetFields,
    DBObjectGetFieldsResp,
    DBObjectGetAll,
    DBObjectGetAllResp,
    DBObjectSetField,
    DBObjectSetFields,
    DBObjectSetFieldIfEquals,
    DBObjectSetFieldIfEqualsResp,
    DBObjectSetFieldsIfEquals,
    DBObjectSetFieldsIfEqualsResp,
    DBObjectSetFieldIfEmpty,
    DBObjectSetFieldIfEmptyResp,
    DBObjectDeleteField,
    DBObjectDeleteFields,
    DBObjectDelete,
    MDAddChannel,
    MDRemoveChannel,
    MDAddRange,
    MDRemoveRange,
    MDAddPostRemove,
    MDClearPostRemoves,
}

/// The numeric opcode of each message type.
pub open spec fn msg_value(m: Message) -> u16 {
    match m {
        Message::ClientHello => 1,
        Message::ClientHelloResp => 2,
        Message::ClientDisconnect => 3,
        Message::ClientEject => 4,
        Message::ClientHeartbeat => 5,
        Message::ClientObjectSetField => 120,
        Message::ClientObjectSetFields => 121,
        Message::ClientObjectLeaving => 132,
        Message::ClientObjectLeavingOwner => 161,
        Message::ClientEnterObjectRequired => 142,
        Message::ClientEnterObjectRequiredOther => 143,
        Message::ClientEnterObjectRequiredOwner => 172,
        Message::ClientEnterObjectRequiredOwnerOther => 173,
        Message::ClientDoneInterestResp => 204,
        Message::ClientAddInterest => 200,
        Message::ClientAddInterestMultiple => 201,
        Message::ClientRemoveInterest => 203,
        Message::ClientObjectLocation => 140,
        Message::CASetState => 1000,
        Message::CASetClientID => 1001,
        Message::CASendDatagram => 1002,
        Message::CAEject => 1004,
        Message::CADrop => 1005,
        Message::CAGetNetworkAddress => 1006,
        Message::CAGetNetworkAddressResp => 1007,
        Message::CADeclareObject => 1010,
        Message::CAUndeclareObject => 1011,
        Message::CAAddSessionObject => 1012,
        Message::CARemoveSessionObject => 1013,
        Message::CASetFieldsSendable => 1014,
        Message::CAOpenChannel => 1100,
        Message::CACloseChannel => 1101,
        Message::CAAddPostRemove => 1110,
        Message::CAClearPostRemoves => 1111,
        Message::CAAddInterest => 1200,
        Message::CAAddInterestMultiple => 1201,
        Message::CARemoveInterest => 1203,
        Message::SSCreateObjectWithRequired => 2000,
        Message::SSCreateObjectWithRequiredOther => 2001,
        Message::SSDeleteAIObjects => 2009,
        Message::SSObjectGetField => 2010,
        Message::SSObjectGetFieldResp => 2011,
        Message::SSObjectGetFields => 2012,
        Message::SSObjectGetFieldsResp => 2013,
        Message::SSObjectGetAll => 2014,
        Message::SSObjectGetAllResp => 2015,
        Message::SSObjectSetField => 2020,
        Message::SSObjectSetFields => 2021,
        Message::SSObjectDeleteFieldRAM => 2030,
        Message::SSObjectDeleteFieldsRAM => 2031,
        Message::SSObjectDeleteRAM => 2032,
        Message::SSObjectSetLocation => 2040,
        Message::SSObjectChangingLocation => 2041,
        Message::SSObjectEnterLocationWithRequired => 2042,
        Message::SSObjectEnterLocationWithRequiredOther => 2043,
        Message::SSObjectGetLocation => 2044,
        Message::SSObjectGetLocationResp => 2045,
        Message::SSObjectSetAI => 2050,
        Message::SSObjectChangingAI => 2051,
        Message::SSObjectEnterAIWithRequired => 2052,
        Message::SSObjectEnterAIWithRequiredOther => 2053,
        Message::SSObjectGetAI => 2054,
        Message::SSObjectGetAIResp => 2055,
        Message::SSObjectSetOwner => 2060,
        Message::SSObjectChangingOwner => 2061,
        Message::SSObjectEnterOwnerWithRequired => 2062,
        Message::SSObjectEnterOwnerWithRequiredOther => 2063,
        Message::SSObjectGetOwner => 2064,
        Message::SSObjectGetOwnerResp => 2065,
        Message::SSObjectGetZoneObjects => 2100,
        Message::SSObjectGetZonesObjects => 2102,
        Message::SSObjectGetChildren => 2104,
        Message::SSObjectGetZoneCount => 2110,
        Message::SSObjectGetZoneCountResp => 2111,
        Message::SSObjectGetZonesCount => 2112,
        Message::SSObjectGetZonesCountResp => 2113,
        Message::SSObjectGetChildCount => 2114,
        Message::SSObjectGetChildCountResp => 2115,
        Message::SSObjectDeleteZone => 2120,
        Message::SSObjectDeleteZones => 2122,
        Message::SSObjectDeleteChildren => 2124,
        Message::DBSSObjectActivateWithDefaults => 2200,
        Message::DBSSObjectActivateWithDefaultsOther => 2201,
        Message::DBSSObjectGetActivated => 2207,
        Message::DBSSObjectGetActivatedResp => 2208,
        Message::DBSSObjectDeleteFieldDisk => 2230,
        Message::DBSSObjectDeleteFieldsDisk => 2231,
        Message::DBSSObjectDeleteDisk => 2232,
        Message::DBCreateObject => 3000,
        Message::DBCreateObjectResp => 3001,
        Message::DBObjectGetField => 3010,
        Message::DBObjectGetFieldResp => 3011,
        Message::DBObjectGetFields => 3012,
        Message::DBObjectGetFieldsResp => 3013,
        Message::DBObjectGetAll => 3014,
        Message::DBObjectGetAllResp => 3015,
        Message::DBObjectSetField => 3020,
        Message::DBObjectSetFields => 3021,
        Message::DBObjectSetFieldIfEquals => 3022,
        Message::DBObjectSetFieldIfEqualsResp => 3023,
        Message::DBObjectSetFieldsIfEquals => 3024,
        Message::DBObjectSetFieldsIfEqualsResp => 3025,
        Message::DBObjectSetFieldIfEmpty => 3026,
        Message::DBObjectSetFieldIfEmptyResp => 3027,
        Message::DBObjectDeleteField => 3030,
        Message::DBObjectDeleteFields => 3031,
        Message::DBObjectDelete => 3032,
        Message::MDAddChannel => 9000,
        Message::MDRemoveChannel => 9001,
        Message::MDAddRange => 9002,
        Message::MDRemoveRange => 9003,
        Message::MDAddPostRemove => 9010,
        Message::MDClearPostRemoves => 9011,
    }
}

/// The message type of a numeric opcode, `None` for an unassigned one.
pub open spec fn spec_msg_from_value(v: u16) -> Option<Message> {
    if v == 1 {
        Some(Message::ClientHello)
    } else if v == 2 {
        Some(Message::ClientHelloResp)
    } else if v == 3 {
        Some(Message::ClientDisconnect)
    } else if v == 4 {
        Some(Message::ClientEject)
    } else if v == 5 {
        Some(Message::ClientHeartbeat)
    } else if v == 120 {
        Some(Message::ClientObjectSetField)
    } else if v == 121 {
        Some(Message::ClientObjectSetFields)
    } else if v == 132 {
        Some(Message::ClientObjectLeaving)
    } else if v == 161 {
        Some(Message::ClientObjectLeavingOwner)
    } else if v == 142 {
        Some(Message::ClientEnterObjectRequired)
    } else if v == 143 {
        Some(Message::ClientEnterObjectRequiredOther)
    } else if v == 172 {
        Some(Message::ClientEnterObjectRequiredOwner)
    } else if v == 173 {
        Some(Message::ClientEnterObjectRequiredOwnerOther)
    } else if v == 204 {
        Some(Message::ClientDoneInterestResp)
    } else if v == 200 {
        Some(Message::ClientAddInterest)
    } else if v == 201 {
        Some(Message::ClientAddInterestMultiple)
    } else if v == 203 {
        Some(Message::ClientRemoveInterest)
    } else if v == 140 {
        Some(Message::ClientObjectLocation)
    } else if v == 1000 {
        Some(Message::CASetState)
    } else if v == 1001 {
        Some(Message::CASetClientID)
    } else if v == 1002 {
        Some(Message::CASendDatagram)
    } else if v == 1004 {
        Some(Message::CAEject)
    } else if v == 1005 {
        Some(Message::CADrop)
    } else if v == 1006 {
        Some(Message::CAGetNetworkAddress)
    } else if v == 1007 {
        Some(Message::CAGetNetworkAddressResp)
    } else if v == 1010 {
        Some(Message::CADeclareObject)
    } else if v == 1011 {
        Some(Message::CAUndeclareObject)
    } else if v == 1012 {
        Some(Message::CAAddSessionObject)
    } else if v == 1013 {
        Some(Message::CARemoveSessionObject)
    } else if v == 1014 {
        Some(Message::CASetFieldsSendable)
    } else if v == 1100 {
        Some(Message::CAOpenChannel)
    } else if v == 1101 {
        Some(Message::CACloseChannel)
    } else if v == 1110 {
        Some(Message::CAAddPostRemove)
    } else if v == 1111 {
        Some(Message::CAClearPostRemoves)
    } else if v == 1200 {
        Some(Message::CAAddInterest)
    } else if v == 1201 {
        Some(Message::CAAddInterestMultiple)
    } else if v == 1203 {
        Some(Message::CARemoveInterest)
    } else if v == 2000 {
        Some(Message::SSCreateObjectWithRequired)
    } else if v == 2001 {
        Some(Message::SSCreateObjectWithRequiredOther)
    } else if v == 2009 {
        Some(Message::SSDeleteAIObjects)
    } else if v == 2010 {
        Some(Message::SSObjectGetField)
    } else if v == 2011 {
        Some(Message::SSObjectGetFieldResp)
    } else if v == 2012 {
        Some(Message::SSObjectGetFields)
    } else if v == 2013 {
        Some(Message::SSObjectGetFieldsResp)
    } else if v == 2014 {
        Some(Message::SSObjectGetAll)
    } else if v == 2015 {
        Some(Message::SSObjectGetAllResp)
    } else if v == 2020 {
        Some(Message::SSObjectSetField)
    } else if v == 2021 {
        Some(Message::SSObjectSetFields)
    } else if v == 2030 {
        Some(Message::SSObjectDeleteFieldRAM)
    } else if v == 2031 {
        Some(Message::SSObjectDeleteFieldsRAM)
    } else if v == 2032 {
        Some(Message::SSObjectDeleteRAM)
    } else if v == 2040 {
        Some(Message::SSObjectSetLocation)
    } else if v == 2041 {
        Some(Message::SSObjectChangingLocation)
    } else if v == 2042 {
        Some(Message::SSObjectEnterLocationWithRequired)
    } else if v == 2043 {
        Some(Message::SSObjectEnterLocationWithRequiredOther)
    } else if v == 2044 {
        Some(Message::SSObjectGetLocation)
    } else if v == 2045 {
        Some(Message::SSObjectGetLocationResp)
    } else if v == 2050 {
        Some(Message::SSObjectSetAI)
    } else if v == 2051 {
        Some(Message::SSObjectChangingAI)
    } else if v == 2052 {
        Some(Message::SSObjectEnterAIWithRequired)
    } else if v == 2053 {
        Some(Message::SSObjectEnterAIWithRequiredOther)
    } else if v == 2054 {
        Some(Message::SSObjectGetAI)
    } else if v == 2055 {
        Some(Message::SSObjectGetAIResp)
    } else if v == 2060 {
        Some(Message::SSObjectSetOwner)
    } else if v == 2061 {
        Some(Message::SSObjectChangingOwner)
    } else if v == 2062 {
        Some(Message::SSObjectEnterOwnerWithRequired)
    } else if v == 2063 {
        Some(Message::SSObjectEnterOwnerWithRequiredOther)
    } else if v == 2064 {
        Some(Message::SSObjectGetOwner)
    } else if v == 2065 {
        Some(Message::SSObjectGetOwnerResp)
    } else if v == 2100 {
        Some(Message::SSObjectGetZoneObjects)
    } else if v == 2102 {
        Some(Message::SSObjectGetZonesObjects)
    } else if v == 2104 {
        Some(Message::SSObjectGetChildren)
    } else if v == 2110 {
        Some(Message::SSObjectGetZoneCount)
    } else if v == 2111 {
        Some(Message::SSObjectGetZoneCountResp)
    } else if v == 2112 {
        Some(Message::SSObjectGetZonesCount)
    } else if v == 2113 {
        Some(Message::SSObjectGetZonesCountResp)
    } else if v == 2114 {
        Some(Message::SSObjectGetChildCount)
    } else if v == 2115 {
        Some(Message::SSObjectGetChildCountResp)
    } else if v == 2120 {
        Some(Message::SSObjectDeleteZone)
    } else if v == 2122 {
        Some(Message::SSObjectDeleteZones)
    } else if v == 2124 {
        Some(Message::SSObjectDeleteChildren)
    } else if v == 2200 {
        Some(Message::DBSSObjectActivateWithDefaults)
    } else if v == 2201 {
        Some(Message::DBSSObjectActivateWithDefaultsOther)
    } else if v == 2207 {
        Some(Message::DBSSObjectGetActivated)
    } else if v == 2208 {
        Some(Message::DBSSObjectGetActivatedResp)
    } else if v == 2230 {
        Some(Message::DBSSObjectDeleteFieldDisk)
    } else if v == 2231 {
        Some(Message::DBSSObjectDeleteFieldsDisk)
    } else if v == 2232 {
        Some(Message::DBSSObjectDeleteDisk)
    } else if v == 3000 {
        Some(Message::DBCreateObject)
    } else if v == 3001 {
        Some(Message::DBCreateObjectResp)
    } else if v == 3010 {
        Some(Message::DBObjectGetField)
    } else if v == 3011 {
        Some(Message::DBObjectGetFieldResp)
    } else if v == 3012 {
        Some(Message::DBObjectGetFields)
    } else if v == 3013 {
        Some(Message::DBObjectGetFieldsResp)
    } else if v == 3014 {
        Some(Message::DBObjectGetAll)
    } else if v == 3015 {
        Some(Message::DBObjectGetAllResp)
    } else if v == 3020 {
        Some(Message::DBObjectSetField)
    } else if v == 3021 {
        Some(Message::DBObjectSetFields)
    } else if v == 3022 {
        Some(Message::DBObjectSetFieldIfEquals)
    } else if v == 3023 {
        Some(Message::DBObjectSetFieldIfEqualsResp)
    } else if v == 3024 {
        Some(Message::DBObjectSetFieldsIfEquals)
    } else if v == 3025 {
        Some(Message::DBObjectSetFieldsIfEqualsResp)
    } else if v == 3026 {
        Some(Message::DBObjectSetFieldIfEmpty)
    } else if v == 3027 {
        Some(Message::DBObjectSetFieldIfEmptyResp)
    } else if v == 3030 {
        Some(Message::DBObjectDeleteField)
    } else if v == 3031 {
        Some(Message::DBObjectDeleteFields)
    } else if v == 3032 {
        Some(Message::DBObjectDelete)
    } else if v == 9000 {
        Some(Message::MDAddChannel)
    } else if v == 9001 {
        Some(Message::MDRemoveChannel)
    } else if v == 9002 {
        Some(Message::MDAddRange)
    } else if v == 9003 {
        Some(Message::MDRemoveRange)
    } else if v == 9010 {
        Some(Message::MDAddPostRemove)
    } else if v == 9011 {
        Some(Message::MDClearPostRemoves)
    } else {
        None
    }
}

impl Message {
    /// The opcode carried on the wire for this message type.
    pub fn value(self) -> (r: u16)
        ensures
            r == msg_value(self),
    {
        match self {
            Message::ClientHello => 1,
            Message::ClientHelloResp => 2,
            Message::ClientDisconnect => 3,
            Message::ClientEject => 4,
            Message::ClientHeartbeat => 5,
            Message::ClientObjectSetField => 120,
            Message::ClientObjectSetFields => 121,
            Message::ClientObjectLeaving => 132,
            Message::ClientObjectLeavingOwner => 161,
            Message::ClientEnterObjectRequired => 142,
            Message::ClientEnterObjectRequiredOther => 143,
            Message::ClientEnterObjectRequiredOwner => 172,
            Message::ClientEnterObjectRequiredOwnerOther => 173,
            Message::ClientDoneInterestResp => 204,
            Message::ClientAddInterest => 200,
            Message::ClientAddInterestMultiple => 201,
            Message::ClientRemoveInterest => 203,
            Message::ClientObjectLocation => 140,
            Message::CASetState => 1000,
            Message::CASetClientID => 1001,
            Message::CASendDatagram => 1002,
            Message::CAEject => 1004,
            Message::CADrop => 1005,
            Message::CAGetNetworkAddress => 1006,
            Message::CAGetNetworkAddressResp => 1007,
            Message::CADeclareObject => 1010,
            Message::CAUndeclareObject => 1011,
            Message::CAAddSessionObject => 1012,
            Message::CARemoveSessionObject => 1013,
            Message::CASetFieldsSendable => 1014,
            Message::CAOpenChannel => 1100,
            Message::CACloseChannel => 1101,
            Message::CAAddPostRemove => 1110,
            Message::CAClearPostRemoves => 1111,
            Message::CAAddInterest => 1200,
            Message::CAAddInterestMultiple => 1201,
            Message::CARemoveInterest => 1203,
            Message::SSCreateObjectWithRequired => 2000,
            Message::SSCreateObjectWithRequiredOther => 2001,
            Message::SSDeleteAIObjects => 2009,
            Message::SSObjectGetField => 2010,
            Message::SSObjectGetFieldResp => 2011,
            Message::SSObjectGetFields => 2012,
            Message::SSObjectGetFieldsResp => 2013,
            Message::SSObjectGetAll => 2014,
            Message::SSObjectGetAllResp => 2015,
            Message::SSObjectSetField => 2020,
            Message::SSObjectSetFields => 2021,
            Message::SSObjectDeleteFieldRAM => 2030,
            Message::SSObjectDeleteFieldsRAM => 2031,
            Message::SSObjectDeleteRAM => 2032,
            Message::SSObjectSetLocation => 2040,
            Message::SSObjectChangingLocation => 2041,
            Message::SSObjectEnterLocationWithRequired => 2042,
            Message::SSObjectEnterLocationWithRequiredOther => 2043,
            Message::SSObjectGetLocation => 2044,
            Message::SSObjectGetLocationResp => 2045,
            Message::SSObjectSetAI => 2050,
            Message::SSObjectChangingAI => 2051,
            Message::SSObjectEnterAIWithRequired => 2052,
            Message::SSObjectEnterAIWithRequiredOther => 2053,
            Message::SSObjectGetAI => 2054,
            Message::SSObjectGetAIResp => 2055,
            Message::SSObjectSetOwner => 2060,
            Message::SSObjectChangingOwner => 2061,
            Message::SSObjectEnterOwnerWithRequired => 2062,
            Message::SSObjectEnterOwnerWithRequiredOther => 2063,
            Message::SSObjectGetOwner => 2064,
            Message::SSObjectGetOwnerResp => 2065,
            Message::SSObjectGetZoneObjects => 2100,
            Message::SSObjectGetZonesObjects => 2102,
            Message::SSObjectGetChildren => 2104,
            Message::SSObjectGetZoneCount => 2110,
            Message::SSObjectGetZoneCountResp => 2111,
            Message::SSObjectGetZonesCount => 2112,
            Message::SSObjectGetZonesCountResp => 2113,
            Message::SSObjectGetChildCount => 2114,
            Message::SSObjectGetChildCountResp => 2115,
            Message::SSObjectDeleteZone => 2120,
            Message::SSObjectDeleteZones => 2122,
            Message::SSObjectDeleteChildren => 2124,
            Message::DBSSObjectActivateWithDefaults => 2200,
            Message::DBSSObjectActivateWithDefaultsOther => 2201,
            Message::DBSSObjectGetActivated => 2207,
            Message::DBSSObjectGetActivatedResp => 2208,
            Message::DBSSObjectDeleteFieldDisk => 2230,
            Message::DBSSObjectDeleteFieldsDisk => 2231,
            Message::DBSSObjectDeleteDisk => 2232,
            Message::DBCreateObject => 3000,
            Message::DBCreateObjectResp => 3001,
            Message::DBObjectGetField => 3010,
            Message::DBObjectGetFieldResp => 3011,
            Message::DBObjectGetFields => 3012,
            Message::DBObjectGetFieldsResp => 3013,
            Message::DBObjectGetAll => 3014,
            Message::DBObjectGetAllResp => 3015,
            Message::DBObjectSetField => 3020,
            Message::DBObjectSetFields => 3021,
            Message::DBObjectSetFieldIfEquals => 3022,
            Message::DBObjectSetFieldIfEqualsResp => 3023,
            Message::DBObjectSetFieldsIfEquals => 3024,
            Message::DBObjectSetFieldsIfEqualsResp => 3025,
            Message::DBObjectSetFieldIfEmpty => 3026,
            Message::DBObjectSetFieldIfEmptyResp => 3027,
            Message::DBObjectDeleteField => 3030,
            Message::DBObjectDeleteFields => 3031,
            Message::DBObjectDelete => 3032,
            Message::MDAddChannel => 9000,
            Message::MDRemoveChannel => 9001,
            Message::MDAddRange => 9002,
            Message::MDRemoveRange => 9003,
            Message::MDAddPostRemove => 9010,
            Message::MDClearPostRemoves => 9011,
        }
    }

    /// The message type assigned to a wire opcode, if any.
    pub fn from_value(v: u16) -> (r: Option<Message>)
        ensures
            r == spec_msg_from_value(v),
    {
        match v {
            1 => Some(Message::ClientHello),
            2 => Some(Message::ClientHelloResp),
            3 => Some(Message::ClientDisconnect),
            4 => Some(Message::ClientEject),
            5 => Some(Message::ClientHeartbeat),
            120 => Some(Message::ClientObjectSetField),
            121 => Some(Message::ClientObjectSetFields),
            132 => Some(Message::ClientObjectLeaving),
            161 => Some(Message::ClientObjectLeavingOwner),
            142 => Some(Message::ClientEnterObjectRequired),
            143 => Some(Message::ClientEnterObjectRequiredOther),
            172 => Some(Message::ClientEnterObjectRequiredOwner),
            173 => Some(Message::ClientEnterObjectRequiredOwnerOther),
            204 => Some(Message::ClientDoneInterestResp),
            200 => Some(Message::ClientAddInterest),
            201 => Some(Message::ClientAddInterestMultiple),
            203 => Some(Message::ClientRemoveInterest),
            140 => Some(Message::ClientObjectLocation),
            1000 => Some(Message::CASetState),
            1001 => Some(Message::CASetClientID),
            1002 => Some(Message::CASendDatagram),
            1004 => Some(Message::CAEject),
            1005 => Some(Message::CADrop),
            1006 => Some(Message::CAGetNetworkAddress),
            1007 => Some(Message::CAGetNetworkAddressResp),
            1010 => Some(Message::CADeclareObject),
            1011 => Some(Message::CAUndeclareObject),
            1012 => Some(Message::CAAddSessionObject),
            1013 => Some(Message::CARemoveSessionObject),
            1014 => Some(Message::CASetFieldsSendable),
            1100 => Some(Message::CAOpenChannel),
            1101 => Some(Message::CACloseChannel),
            1110 => Some(Message::CAAddPostRemove),
            1111 => Some(Message::CAClearPostRemoves),
            1200 => Some(Message::CAAddInterest),
            1201 => Some(Message::CAAddInterestMultiple),
            1203 => Some(Message::CARemoveInterest),
            2000 => Some(Message::SSCreateObjectWithRequired),
            2001 => Some(Message::SSCreateObjectWithRequiredOther),
            2009 => Some(Message::SSDeleteAIObjects),
            2010 => Some(Message::SSObjectGetField),
            2011 => Some(Message::SSObjectGetFieldResp),
            2012 => Some(Message::SSObjectGetFields),
            2013 => Some(Message::SSObjectGetFieldsResp),
            2014 => Some(Message::SSObjectGetAll),
            2015 => Some(Message::SSObjectGetAllResp),
            2020 => Some(Message::SSObjectSetField),
            2021 => Some(Message::SSObjectSetFields),
            2030 => Some(Message::SSObjectDeleteFieldRAM),
            2031 => Some(Message::SSObjectDeleteFieldsRAM),
            2032 => Some(Message::SSObjectDeleteRAM),
            2040 => Some(Message::SSObjectSetLocation),
            2041 => Some(Message::SSObjectChangingLocation),
            2042 => Some(Message::SSObjectEnterLocationWithRequired),
            2043 => Some(Message::SSObjectEnterLocationWithRequiredOther),
            2044 => Some(Message::SSObjectGetLocation),
            2045 => Some(Message::SSObjectGetLocationResp),
            2050 => Some(Message::SSObjectSetAI),
            2051 => Some(Message::SSObjectChangingAI),
            2052 => Some(Message::SSObjectEnterAIWithRequired),
            2053 => Some(Message::SSObjectEnterAIWithRequiredOther),
            2054 => Some(Message::SSObjectGetAI),
            2055 => Some(Message::SSObjectGetAIResp),
            2060 => Some(Message::SSObjectSetOwner),
            2061 => Some(Message::SSObjectChangingOwner),
            2062 => Some(Message::SSObjectEnterOwnerWithRequired),
            2063 => Some(Message::SSObjectEnterOwnerWithRequiredOther),
            2064 => Some(Message::SSObjectGetOwner),
            2065 => Some(Message::SSObjectGetOwnerResp),
            2100 => Some(Message::SSObjectGetZoneObjects),
            2102 => Some(Message::SSObjectGetZonesObjects),
            2104 => Some(Message::SSObjectGetChildren),
            2110 => Some(Message::SSObjectGetZoneCount),
            2111 => Some(Message::SSObjectGetZoneCountResp),
            2112 => Some(Message::SSObjectGetZonesCount),
            2113 => Some(Message::SSObjectGetZonesCountResp),
            2114 => Some(Message::SSObjectGetChildCount),
            2115 => Some(Message::SSObjectGetChildCountResp),
            2120 => Some(Message::SSObjectDeleteZone),
            2122 => Some(Message::SSObjectDeleteZones),
            2124 => Some(Message::SSObjectDeleteChildren),
            2200 => Some(Message::DBSSObjectActivateWithDefaults),
            2201 => Some(Message::DBSSObjectActivateWithDefaultsOther),
            2207 => Some(Message::DBSSObjectGetActivated),
            2208 => Some(Message::DBSSObjectGetActivatedResp),
            2230 => Some(Message::DBSSObjectDeleteFieldDisk),
            2231 => Some(Message::DBSSObjectDeleteFieldsDisk),
            2232 => Some(Message::DBSSObjectDeleteDisk),
            3000 => Some(Message::DBCreateObject),
            3001 => Some(Message::DBCreateObjectResp),
            3010 => Some(Message::DBObjectGetField),
            3011 => Some(Message::DBObjectGetFieldResp),
            3012 => Some(Message::DBObjectGetFields),
            3013 => Some(Message::DBObjectGetFieldsResp),
            3014 => Some(Message::DBObjectGetAll),
            3015 => Some(Message::DBObjectGetAllResp),
            3020 => Some(Message::DBObjectSetField),
            3021 => Some(Message::DBObjectSetFields),
            3022 => Some(Message::DBObjectSetFieldIfEquals),
            3023 => Some(Message::DBObjectSetFieldIfEqualsResp),
            3024 => Some(Message::DBObjectSetFieldsIfEquals),
            3025 => Some(Message::DBObjectSetFieldsIfEqualsResp),
            3026 => Some(Message::DBObjectSetFieldIfEmpty),
            3027 => Some(Message::DBObjectSetFieldIfEmptyResp),
            3030 => Some(Message::DBObjectDeleteField),
            3031 => Some(Message::DBObjectDeleteFields),
            3032 => Some(Message::DBObjectDelete),
            9000 => Some(Message::MDAddChannel),
            9001 => Some(Message::MDRemoveChannel),
            9002 => Some(Message::MDAddRange),
            9003 => Some(Message::MDRemoveRange),
            9010 => Some(Message::MDAddPostRemove),
            9011 => Some(Message::MDClearPostRemoves),
            _ => None,
        }
    }
}

/// Whether `v` is one of the Message Director's control opcodes, the
/// ones that mutate routing state instead of carrying payload to
/// subscribers.
pub open spec fn spec_is_control_opcode(v: u16) -> bool {
    v == MD_ADD_CHANNEL || v == MD_REMOVE_CHANNEL || v == MD_ADD_RANGE || v == MD_REMOVE_RANGE
        || v == MD_ADD_POST_REMOVE || v == MD_CLEAR_POST_REMOVES
}

/// Decide whether `v` is a control opcode of the Message Director.
pub fn is_control_opcode(v: u16) -> (r: bool)
    ensures
        r == spec_is_control_opcode(v),
{
    v == MD_ADD_CHANNEL || v == MD_REMOVE_CHANNEL || v == MD_ADD_RANGE || v == MD_REMOVE_RANGE
        || v == MD_ADD_POST_REMOVE || v == MD_CLEAR_POST_REMOVES
}

/// Each message type's opcode maps back to that message type: the
/// catalog assigns every number at most once.
pub proof fn lemma_msg_value_round_trip(m: Message)
    ensures
        spec_msg_from_value(msg_value(m)) == Some(m),
{
}

} // verus!
