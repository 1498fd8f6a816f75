//! The mapping between the external numeric code space and the error
//! variants: which integers are defined failure codes, the designated
//! success code that must never be converted into an error, the conversion
//! itself, and a stable tag encoding of the variants.

use vstd::prelude::*;

use crate::error::SteamError;

verus! {

/// The one numeric code the external SDK uses to report success. It has no
/// corresponding error variant and must never be converted into one.
pub const SUCCESS_CODE: i32 = 1;

/// Which integers are defined external failure codes. The external SDK
/// numbers its failure conditions contiguously from 2 to 110, except that 4
/// was retired from the external enumeration and is not a defined code.
pub open spec fn is_failure_code(c: int) -> bool {
    2 <= c <= 110 && c != 4
}

/// The numeric tag of each variant: the external failure code that maps to
/// it, or 0 for `InitFailed`, which no external code produces.
pub open spec fn code_of(e: SteamError) -> int {
    match e {
        SteamError::InitFailed => 0,
        SteamError::Generic => 2,
        SteamError::NoConnection => 3,
        SteamError::InvalidPassword => 5,
        SteamError::LoggedInElsewhere => 6,
        SteamError::InvalidProtocolVersion => 7,
        SteamError::InvalidParameter => 8,
        SteamError::FileNotFound => 9,
        SteamError::Busy => 10,
        SteamError::InvalidState => 11,
        SteamError::InvalidName => 12,
        SteamError::InvalidEmail => 13,
        SteamError::DuplicateName => 14,
        SteamError::AccessDenied => 15,
        SteamError::Timeout => 16,
        SteamError::Banned => 17,
        SteamError::AccountNotFound => 18,
        SteamError::InvalidSteamID => 19,
        SteamError::ServiceUnavailable => 20,
        SteamError::NotLoggedOn => 21,
        SteamError::Pending => 22,
        SteamError::EncryptionFailure => 23,
        SteamError::InsufficientPrivilege => 24,
        SteamError::LimitExceeded => 25,
        SteamError::Revoked => 26,
        SteamError::Expired => 27,
        SteamError::AlreadyRedeemed => 28,
        SteamError::DuplicateRequest => 29,
        SteamError::AlreadyOwned => 30,
        SteamError::IPNotFound => 31,
        SteamError::PersistFailed => 32,
        SteamError::LockingFailed => 33,
        SteamError::LogonSessionReplaced => 34,
        SteamError::ConnectFailed => 35,
        SteamError::HandshakeFailed => 36,
        SteamError::IOFailure => 37,
        SteamError::RemoteDisconnect => 38,
        SteamError::ShoppingCartNotFound => 39,
        SteamError::Blocked => 40,
        SteamError::Ignored => 41,
        SteamError::NoMatch => 42,
        SteamError::AccountDisabled => 43,
        SteamError::ServiceReadOnly => 44,
        SteamError::AccountNotFeatured => 45,
        SteamError::AdministratorOK => 46,
        SteamError::ContentVersion => 47,
        SteamError::TryAnotherCM => 48,
        SteamError::PasswordRequiredToKickSession => 49,
        SteamError::AlreadyLoggedInElsewhere => 50,
        SteamError::Suspended => 51,
        SteamError::Cancelled => 52,
        SteamError::DataCorruption => 53,
        SteamError::DiskFull => 54,
        SteamError::RemoteCallFailed => 55,
        SteamError::PasswordUnset => 56,
        SteamError::ExternalAccountUnlinked => 57,
        SteamError::PSNTicketInvalid => 58,
        SteamError::ExternalAccountAlreadyLinked => 59,
        SteamError::RemoteFileConflict => 60,
        SteamError::IllegalPassword => 61,
        SteamError::SameAsPreviousValue => 62,
        SteamError::AccountLogonDenied => 63,
        SteamError::CannotUseOldPassword => 64,
        SteamError::InvalidLoginAuthCode => 65,
        SteamError::AccountLogonDeniedNoMail => 66,
        SteamError::HardwareNotCapableOfIPT => 67,
        SteamError::IPTInitError => 68,
        SteamError::ParentalControlRestricted => 69,
        SteamError::FacebookQueryError => 70,
        SteamError::ExpiredLoginAuthCode => 71,
        SteamError::IPLoginRestrictionFailed => 72,
        SteamError::AccountLockedDown => 73,
        SteamError::AccountLogonDeniedVerifiedEmailRequired => 74,
        SteamError::NoMatchingURL => 75,
        SteamError::BadResponse => 76,
        SteamError::RequirePasswordReEntry => 77,
        SteamError::ValueOutOfRange => 78,
        SteamError::UnexpectedError => 79,
        SteamError::Disabled => 80,
        SteamError::InvalidCEGSubmission => 81,
        SteamError::RestrictedDevice => 82,
        SteamError::RegionLocked => 83,
        SteamError::RateLimitExceeded => 84,
        SteamError::AccountLoginDeniedNeedTwoFactor => 85,
        SteamError::ItemDeleted => 86,
        SteamError::AccountLoginDeniedThrottle => 87,
        SteamError::TwoFactorCodeMismatch => 88,
        SteamError::TwoFactorActivationCodeMismatch => 89,
        SteamError::AccountAssociatedToMultiplePartners => 90,
        SteamError::NotModified => 91,
        SteamError::NoMobileDevice => 92,
        SteamError::TimeNotSynced => 93,
        SteamError::SmsCodeFailed => 94,
        SteamError::AccountLimitExceeded => 95,
        SteamError::AccountActivityLimitExceeded => 96,
        SteamError::PhoneActivityLimitExceeded => 97,
        SteamError::RefundToWallet => 98,
        SteamError::EmailSendFailure => 99,
        SteamError::NotSettled => 100,
        SteamError::NeedCaptcha => 101,
        SteamError::GSLTDenied => 102,
        SteamError::GSOwnerDenied => 103,
        SteamError::InvalidItemType => 104,
        SteamError::IPBanned => 105,
        SteamError::GSLTExpired => 106,
        SteamError::InsufficientFunds => 107,
        SteamError::TooManyPending => 108,
        SteamError::NoSiteLicensesFound => 109,
        SteamError::WGNetworkSendExceeded => 110,
    }
}

/// The variant a numeric tag denotes, if any: the inverse of `code_of`.
/// Tag 0 denotes `InitFailed`; the defined external failure codes denote
/// their variants; every other integer denotes nothing.
pub open spec fn error_of_code(c: int) -> Option<SteamError> {
    if c == 0 {
        Some(SteamError::InitFailed)
    } else if c == 2 {
        Some(SteamError::Generic)
    } else if c == 3 {
        Some(SteamError::NoConnection)
    } else if c == 5 {
        Some(SteamError::InvalidPassword)
    } else if c == 6 {
        Some(SteamError::LoggedInElsewhere)
    } else if c == 7 {
        Some(SteamError::InvalidProtocolVersion)
    } else if c == 8 {
        Some(SteamError::InvalidParameter)
    } else if c == 9 {
        Some(SteamError::FileNotFound)
    } else if c == 10 {
        Some(SteamError::Busy)
    } else if c == 11 {
        Some(SteamError::InvalidState)
    } else if c == 12 {
        Some(SteamError::InvalidName)
    } else if c == 13 {
        Some(SteamError::InvalidEmail)
    } else if c == 14 {
        Some(SteamError::DuplicateName)
    } else if c == 15 {
        Some(SteamError::AccessDenied)
    } else if c == 16 {
        Some(SteamError::Timeout)
    } else if c == 17 {
        Some(SteamError::Banned)
    } else if c == 18 {
        Some(SteamError::AccountNotFound)
    } else if c == 19 {
        Some(SteamError::InvalidSteamID)
    } else if c == 20 {
        Some(SteamError::ServiceUnavailable)
    } else if c == 21 {
        Some(SteamError::NotLoggedOn)
    } else if c == 22 {
        Some(SteamError::Pending)
    } else if c == 23 {
        Some(SteamError::EncryptionFailure)
    } else if c == 24 {
        Some(SteamError::InsufficientPrivilege)
    } else if c == 25 {
        Some(SteamError::LimitExceeded)
    } else if c == 26 {
        Some(SteamError::Revoked)
    } else if c == 27 {
        Some(SteamError::Expired)
    } else if c == 28 {
        Some(SteamError::AlreadyRedeemed)
    } else if c == 29 {
        Some(SteamError::DuplicateRequest)
    } else if c == 30 {
        Some(SteamError::AlreadyOwned)
    } else if c == 31 {
        Some(SteamError::IPNotFound)
    } else if c == 32 {
        Some(SteamError::PersistFailed)
    } else if c == 33 {
        Some(SteamError::LockingFailed)
    } else if c == 34 {
        Some(SteamError::LogonSessionReplaced)
    } else if c == 35 {
        Some(SteamError::ConnectFailed)
    } else if c == 36 {
        Some(SteamError::HandshakeFailed)
    } else if c == 37 {
        Some(SteamError::IOFailure)
    } else if c == 38 {
        Some(SteamError::RemoteDisconnect)
    } else if c == 39 {
        Some(SteamError::ShoppingCartNotFound)
    } else if c == 40 {
        Some(SteamError::Blocked)
    } else if c == 41 {
        Some(SteamError::Ignored)
    } else if c == 42 {
        Some(SteamError::NoMatch)
    } else if c == 43 {
        Some(SteamError::AccountDisabled)
    } else if c == 44 {
        Some(SteamError::ServiceReadOnly)
    } else if c == 45 {
        Some(SteamError::AccountNotFeatured)
    } else if c == 46 {
        Some(SteamError::AdministratorOK)
    } else if c == 47 {
        Some(SteamError::ContentVersion)
    } else if c == 48 {
        Some(SteamError::TryAnotherCM)
    } else if c == 49 {
        Some(SteamError::PasswordRequiredToKickSession)
    } else if c == 50 {
        Some(SteamError::AlreadyLoggedInElsewhere)
    } else if c == 51 {
        Some(SteamError::Suspended)
    } else if c == 52 {
        Some(SteamError::Cancelled)
    } else if c == 53 {
        Some(SteamError::DataCorruption)
    } else if c == 54 {
        Some(SteamError::DiskFull)
    } else if c == 55 {
        Some(SteamError::RemoteCallFailed)
    } else if c == 56 {
        Some(SteamError::PasswordUnset)
    } else if c == 57 {
        Some(SteamError::ExternalAccountUnlinked)
    } else if c == 58 {
        Some(SteamError::PSNTicketInvalid)
    } else if c == 59 {
        Some(SteamError::ExternalAccountAlreadyLinked)
    } else if c == 60 {
        Some(SteamError::RemoteFileConflict)
    } else if c == 61 {
        Some(SteamError::IllegalPassword)
    } else if c == 62 {
        Some(SteamError::SameAsPreviousValue)
    } else if c == 63 {
        Some(SteamError::AccountLogonDenied)
    } else if c == 64 {
        Some(SteamError::CannotUseOldPassword)
    } else if c == 65 {
        Some(SteamError::InvalidLoginAuthCode)
    } else if c == 66 {
        Some(SteamError::AccountLogonDeniedNoMail)
    } else if c == 67 {
        Some(SteamError::HardwareNotCapableOfIPT)
    } else if c == 68 {
        Some(SteamError::IPTInitError)
    } else if c == 69 {
        Some(SteamError::ParentalControlRestricted)
    } else if c == 70 {
        Some(SteamError::FacebookQueryError)
    } else if c == 71 {
        Some(SteamError::ExpiredLoginAuthCode)
    } else if c == 72 {
        Some(SteamError::IPLoginRestrictionFailed)
    } else if c == 73 {
        Some(SteamError::AccountLockedDown)
    } else if c == 74 {
        Some(SteamError::AccountLogonDeniedVerifiedEmailRequired)
    } else if c == 75 {
        Some(SteamError::NoMatchingURL)
    } else if c == 76 {
        Some(SteamError::BadResponse)
    } else if c == 77 {
        Some(SteamError::RequirePasswordReEntry)
    } else if c == 78 {
        Some(SteamError::ValueOutOfRange)
    } else if c == 79 {
        Some(SteamError::UnexpectedError)
    } else if c == 80 {
        Some(SteamError::Disabled)
    } else if c == 81 {
        Some(SteamError::InvalidCEGSubmission)
    } else if c == 82 {
        Some(SteamError::RestrictedDevice)
    } else if c == 83 {
        Some(SteamError::RegionLocked)
    } else if c == 84 {
        Some(SteamError::RateLimitExceeded)
    } else if c == 85 {
        Some(SteamError::AccountLoginDeniedNeedTwoFactor)
    } else if c == 86 {
        Some(SteamError::ItemDeleted)
    } else if c == 87 {
        Some(SteamError::AccountLoginDeniedThrottle)
    } else if c == 88 {
        Some(SteamError::TwoFactorCodeMismatch)
    } else if c == 89 {
        Some(SteamError::TwoFactorActivationCodeMismatch)
    } else if c == 90 {
        Some(SteamError::AccountAssociatedToMultiplePartners)
    } else if c == 91 {
        Some(SteamError::NotModified)
    } else if c == 92 {
        Some(SteamError::NoMobileDevice)
    } else if c == 93 {
        Some(SteamError::TimeNotSynced)
    } else if c == 94 {
        Some(SteamError::SmsCodeFailed)
    } else if c == 95 {
        Some(SteamError::AccountLimitExceeded)
    } else if c == 96 {
        Some(SteamError::AccountActivityLimitExceeded)
    } else if c == 97 {
        Some(SteamError::PhoneActivityLimitExceeded)
    } else if c == 98 {
        Some(SteamError::RefundToWallet)
    } else if c == 99 {
        Some(SteamError::EmailSendFailure)
    } else if c == 100 {
        Some(SteamError::NotSettled)
    } else if c == 101 {
        Some(SteamError::NeedCaptcha)
    } else if c == 102 {
        Some(SteamError::GSLTDenied)
    } else if c == 103 {
        Some(SteamError::GSOwnerDenied)
    } else if c == 104 {
        Some(SteamError::InvalidItemType)
    } else if c == 105 {
        Some(SteamError::IPBanned)
    } else if c == 106 {
        Some(SteamError::GSLTExpired)
    } else if c == 107 {
        Some(SteamError::InsufficientFunds)
    } else if c == 108 {
        Some(SteamError::TooManyPending)
    } else if c == 109 {
        Some(SteamError::NoSiteLicensesFound)
    } else if c == 110 {
        Some(SteamError::WGNetworkSendExceeded)
    } else {
        None
    }
}

/// Whether a raw numeric status code is one of the defined external failure
/// codes. The success code and codes unknown to this table are not.
pub fn is_known_failure_code(code: i32) -> (b: bool)
    ensures
        b == is_failure_code(code as int),
{
    2 <= code && code <= 110 && code != 4
}

impl SteamError {
    /// Converts a defined external failure code into its error variant.
    ///
    /// Calling this with the success code, or with a code this table does
    /// not know, is a caller defect and not a runtime condition: the
    /// precondition excludes those inputs, so no such call verifies. An
    /// unverified caller must test `is_known_failure_code` first.
    pub fn from_external(code: i32) -> (r: SteamError)
        requires
            is_failure_code(code as int),
        ensures
            error_of_code(code as int) == Some(r),
            code_of(r) == code as int,
            r != SteamError::InitFailed,
    {
        match code {
            2 => SteamError::Generic,
            3 => SteamError::NoConnection,
            5 => SteamError::InvalidPassword,
            6 => SteamError::LoggedInElsewhere,
            7 => SteamError::InvalidProtocolVersion,
            8 => SteamError::InvalidParameter,
            9 => SteamError::FileNotFound,
            10 => SteamError::Busy,
            11 => SteamError::InvalidState,
            12 => SteamError::InvalidName,
            13 => SteamError::InvalidEmail,
            14 => SteamError::DuplicateName,
            15 => SteamError::AccessDenied,
            16 => SteamError::Timeout,
            17 => SteamError::Banned,
            18 => SteamError::AccountNotFound,
            19 => SteamError::InvalidSteamID,
            20 => SteamError::ServiceUnavailable,
            21 => SteamError::NotLoggedOn,
            22 => SteamError::Pending,
            23 => SteamError::EncryptionFailure,
            24 => SteamError::InsufficientPrivilege,
            25 => SteamError::LimitExceeded,
            26 => SteamError::Revoked,
            27 => SteamError::Expired,
            28 => SteamError::AlreadyRedeemed,
            29 => SteamError::DuplicateRequest,
            30 => SteamError::AlreadyOwned,
            31 => SteamError::IPNotFound,
            32 => SteamError::PersistFailed,
            33 => SteamError::LockingFailed,
            34 => SteamError::LogonSessionReplaced,
            35 => SteamError::ConnectFailed,
            36 => SteamError::HandshakeFailed,
            37 => SteamError::IOFailure,
            38 => SteamError::RemoteDisconnect,
            39 => SteamError::ShoppingCartNotFound,
            40 => SteamError::Blocked,
            41 => SteamError::Ignored,
            42 => SteamError::NoMatch,
            43 => SteamError::AccountDisabled,
            44 => SteamError::ServiceReadOnly,
            45 => SteamError::AccountNotFeatured,
            46 => SteamError::AdministratorOK,
            47 => SteamError::ContentVersion,
            48 => SteamError::TryAnotherCM,
            49 => SteamError::PasswordRequiredToKickSession,
            50 => SteamError::AlreadyLoggedInElsewhere,
            51 => SteamError::Suspended,
            52 => SteamError::Cancelled,
            53 => SteamError::DataCorruption,
            54 => SteamError::DiskFull,
            55 => SteamError::RemoteCallFailed,
            56 => SteamError::PasswordUnset,
            57 => SteamError::ExternalAccountUnlinked,
            58 => SteamError::PSNTicketInvalid,
            59 => SteamError::ExternalAccountAlreadyLinked,
            60 => SteamError::RemoteFileConflict,
            61 => SteamError::IllegalPassword,
            62 => SteamError::SameAsPreviousValue,
            63 => SteamError::AccountLogonDenied,
            64 => SteamError::CannotUseOldPassword,
            65 => SteamError::InvalidLoginAuthCode,
            66 => SteamError::AccountLogonDeniedNoMail,
            67 => SteamError::HardwareNotCapableOfIPT,
            68 => SteamError::IPTInitError,
            69 => SteamError::ParentalControlRestricted,
            70 => SteamError::FacebookQueryError,
            71 => SteamError::ExpiredLoginAuthCode,
            72 => SteamError::IPLoginRestrictionFailed,
            73 => SteamError::AccountLockedDown,
            74 => SteamError::AccountLogonDeniedVerifiedEmailRequired,
            75 => SteamError::NoMatchingURL,
            76 => SteamError::BadResponse,
            77 => SteamError::RequirePasswordReEntry,
            78 => SteamError::ValueOutOfRange,
            79 => SteamError::UnexpectedError,
            80 => SteamError::Disabled,
            81 => SteamError::InvalidCEGSubmission,
            82 => SteamError::RestrictedDevice,
            83 => SteamError::RegionLocked,
            84 => SteamError::RateLimitExceeded,
            85 => SteamError::AccountLoginDeniedNeedTwoFactor,
            86 => SteamError::ItemDeleted,
            87 => SteamError::AccountLoginDeniedThrottle,
            88 => SteamError::TwoFactorCodeMismatch,
            89 => SteamError::TwoFactorActivationCodeMismatch,
            90 => SteamError::AccountAssociatedToMultiplePartners,
            91 => SteamError::NotModified,
            92 => SteamError::NoMobileDevice,
            93 => SteamError::TimeNotSynced,
            94 => SteamError::SmsCodeFailed,
            95 => SteamError::AccountLimitExceeded,
            96 => SteamError::AccountActivityLimitExceeded,
            97 => SteamError::PhoneActivityLimitExceeded,
            98 => SteamError::RefundToWallet,
            99 => SteamError::EmailSendFailure,
            100 => SteamError::NotSettled,
            101 => SteamError::NeedCaptcha,
            102 => SteamError::GSLTDenied,
            103 => SteamError::GSOwnerDenied,
            104 => SteamError::InvalidItemType,
            105 => SteamError::IPBanned,
            106 => SteamError::GSLTExpired,
            107 => SteamError::InsufficientFunds,
            108 => SteamError::TooManyPending,
            109 => SteamError::NoSiteLicensesFound,
            110 => SteamError::WGNetworkSendExceeded,
            _ => unreached(),
        }
    }

    /// Total form of `from_external`: the success code and codes unknown to
    /// the table yield `None` instead of being rejected by precondition.
    pub fn try_from_external(code: i32) -> (r: Option<SteamError>)
        ensures
            r == if is_failure_code(code as int) {
                error_of_code(code as int)
            } else {
                None::<SteamError>
            },
            (r is Some) == is_failure_code(code as int),
    {
        if is_known_failure_code(code) {
            Some(SteamError::from_external(code))
        } else {
            None
        }
    }

    /// The stable numeric tag of this error, for structured persistence or
    /// logging. The description text is not part of the encoding.
    pub fn encode(self) -> (t: u32)
        ensures
            t as int == code_of(self),
    {
        match self {
            SteamError::InitFailed => 0,
            SteamError::Generic => 2,
            SteamError::NoConnection => 3,
            SteamError::InvalidPassword => 5,
            SteamError::LoggedInElsewhere => 6,
            SteamError::InvalidProtocolVersion => 7,
            SteamError::InvalidParameter => 8,
            SteamError::FileNotFound => 9,
            SteamError::Busy => 10,
            SteamError::InvalidState => 11,
            SteamError::InvalidName => 12,
            SteamError::InvalidEmail => 13,
            SteamError::DuplicateName => 14,
            SteamError::AccessDenied => 15,
            SteamError::Timeout => 16,
            SteamError::Banned => 17,
            SteamError::AccountNotFound => 18,
            SteamError::InvalidSteamID => 19,
            SteamError::ServiceUnavailable => 20,
            SteamError::NotLoggedOn => 21,
            SteamError::Pending => 22,
            SteamError::EncryptionFailure => 23,
            SteamError::InsufficientPrivilege => 24,
            SteamError::LimitExceeded => 25,
            SteamError::Revoked => 26,
            SteamError::Expired => 27,
            SteamError::AlreadyRedeemed => 28,
            SteamError::DuplicateRequest => 29,
            SteamError::AlreadyOwned => 30,
            SteamError::IPNotFound => 31,
            SteamError::PersistFailed => 32,
            SteamError::LockingFailed => 33,
            SteamError::LogonSessionReplaced => 34,
            SteamError::ConnectFailed => 35,
            SteamError::HandshakeFailed => 36,
            SteamError::IOFailure => 37,
            SteamError::RemoteDisconnect => 38,
            SteamError::ShoppingCartNotFound => 39,
            SteamError::Blocked => 40,
            SteamError::Ignored => 41,
            SteamError::NoMatch => 42,
            SteamError::AccountDisabled => 43,
            SteamError::ServiceReadOnly => 44,
            SteamError::AccountNotFeatured => 45,
            SteamError::AdministratorOK => 46,
            SteamError::ContentVersion => 47,
            SteamError::TryAnotherCM => 48,
            SteamError::PasswordRequiredToKickSession => 49,
            SteamError::AlreadyLoggedInElsewhere => 50,
            SteamError::Suspended => 51,
            SteamError::Cancelled => 52,
            SteamError::DataCorruption => 53,
            SteamError::DiskFull => 54,
            SteamError::RemoteCallFailed => 55,
            SteamError::PasswordUnset => 56,
            SteamError::ExternalAccountUnlinked => 57,
            SteamError::PSNTicketInvalid => 58,
            SteamError::ExternalAccountAlreadyLinked => 59,
            SteamError::RemoteFileConflict => 60,
            SteamError::IllegalPassword => 61,
            SteamError::SameAsPreviousValue => 62,
            SteamError::AccountLogonDenied => 63,
            SteamError::CannotUseOldPassword => 64,
            SteamError::InvalidLoginAuthCode => 65,
            SteamError::AccountLogonDeniedNoMail => 66,
            SteamError::HardwareNotCapableOfIPT => 67,
            SteamError::IPTInitError => 68,
            SteamError::ParentalControlRestricted => 69,
            SteamError::FacebookQueryError => 70,
            SteamError::ExpiredLoginAuthCode => 71,
            SteamError::IPLoginRestrictionFailed => 72,
            SteamError::AccountLockedDown => 73,
            SteamError::AccountLogonDeniedVerifiedEmailRequired => 74,
            SteamError::NoMatchingURL => 75,
            SteamError::BadResponse => 76,
            SteamError::RequirePasswordReEntry => 77,
            SteamError::ValueOutOfRange => 78,
            SteamError::UnexpectedError => 79,
            SteamError::Disabled => 80,
            SteamError::InvalidCEGSubmission => 81,
            SteamError::RestrictedDevice => 82,
            SteamError::RegionLocked => 83,
            SteamError::RateLimitExceeded => 84,
            SteamError::AccountLoginDeniedNeedTwoFactor => 85,
            SteamError::ItemDeleted => 86,
            SteamError::AccountLoginDeniedThrottle => 87,
            SteamError::TwoFactorCodeMismatch => 88,
            SteamError::TwoFactorActivationCodeMismatch => 89,
            SteamError::AccountAssociatedToMultiplePartners => 90,
            SteamError::NotModified => 91,
            SteamError::NoMobileDevice => 92,
            SteamError::TimeNotSynced => 93,
            SteamError::SmsCodeFailed => 94,
            SteamError::AccountLimitExceeded => 95,
            SteamError::AccountActivityLimitExceeded => 96,
            SteamError::PhoneActivityLimitExceeded => 97,
            SteamError::RefundToWallet => 98,
            SteamError::EmailSendFailure => 99,
            SteamError::NotSettled => 100,
            SteamError::NeedCaptcha => 101,
            SteamError::GSLTDenied => 102,
            SteamError::GSOwnerDenied => 103,
            SteamError::InvalidItemType => 104,
            SteamError::IPBanned => 105,
            SteamError::GSLTExpired => 106,
            SteamError::InsufficientFunds => 107,
            SteamError::TooManyPending => 108,
            SteamError::NoSiteLicensesFound => 109,
            SteamError::WGNetworkSendExceeded => 110,
        }
    }

    /// Decodes a tag written by `encode`; a tag that `encode` never
    /// produces yields `None`.
    pub fn decode(tag: u32) -> (r: Option<SteamError>)
        ensures
            r == error_of_code(tag as int),
    {
        if tag == 0 {
            Some(SteamError::InitFailed)
        } else if 2 <= tag && tag <= 110 && tag != 4 {
            Some(SteamError::from_external(tag as i32))
        } else {
            None
        }
    }
}

/// Round trip: decoding any variant's tag yields that variant back.
pub proof fn lemma_code_round_trip(e: SteamError)
    ensures
        error_of_code(code_of(e)) == Some(e),
{
    match e {
        SteamError::InitFailed => {}
        SteamError::Generic => {}
        SteamError::NoConnection => {}
        SteamError::InvalidPassword => {}
        SteamError::LoggedInElsewhere => {}
        SteamError::InvalidProtocolVersion => {}
        SteamError::InvalidParameter => {}
        SteamError::FileNotFound => {}
        SteamError::Busy => {}
        SteamError::InvalidState => {}
        SteamError::InvalidName => {}
        SteamError::InvalidEmail => {}
        SteamError::DuplicateName => {}
        SteamError::AccessDenied => {}
        SteamError::Timeout => {}
        SteamError::Banned => {}
        SteamError::AccountNotFound => {}
        SteamError::InvalidSteamID => {}
        SteamError::ServiceUnavailable => {}
        SteamError::NotLoggedOn => {}
        SteamError::Pending => {}
        SteamError::EncryptionFailure => {}
        SteamError::InsufficientPrivilege => {}
        SteamError::LimitExceeded => {}
        SteamError::Revoked => {}
        SteamError::Expired => {}
        SteamError::AlreadyRedeemed => {}
        SteamError::DuplicateRequest => {}
        SteamError::AlreadyOwned => {}
        SteamError::IPNotFound => {}
        SteamError::PersistFailed => {}
        SteamError::LockingFailed => {}
        SteamError::LogonSessionReplaced => {}
        SteamError::ConnectFailed => {}
        SteamError::HandshakeFailed => {}
        SteamError::IOFailure => {}
        SteamError::RemoteDisconnect => {}
        SteamError::ShoppingCartNotFound => {}
        SteamError::Blocked => {}
        SteamError::Ignored => {}
        SteamError::NoMatch => {}
        SteamError::AccountDisabled => {}
        SteamError::ServiceReadOnly => {}
        SteamError::AccountNotFeatured => {}
        SteamError::AdministratorOK => {}
        SteamError::ContentVersion => {}
        SteamError::TryAnotherCM => {}
        SteamError::PasswordRequiredToKickSession => {}
        SteamError::AlreadyLoggedInElsewhere => {}
        SteamError::Suspended => {}
        SteamError::Cancelled => {}
        SteamError::DataCorruption => {}
        SteamError::DiskFull => {}
        SteamError::RemoteCallFailed => {}
        SteamError::PasswordUnset => {}
        SteamError::ExternalAccountUnlinked => {}
        SteamError::PSNTicketInvalid => {}
        SteamError::ExternalAccountAlreadyLinked => {}
        SteamError::RemoteFileConflict => {}
        SteamError::IllegalPassword => {}
        SteamError::SameAsPreviousValue => {}
        SteamError::AccountLogonDenied => {}
        SteamError::CannotUseOldPassword => {}
        SteamError::InvalidLoginAuthCode => {}
        SteamError::AccountLogonDeniedNoMail => {}
        SteamError::HardwareNotCapableOfIPT => {}
        SteamError::IPTInitError => {}
        SteamError::ParentalControlRestricted => {}
        SteamError::FacebookQueryError => {}
        SteamError::ExpiredLoginAuthCode => {}
        SteamError::IPLoginRestrictionFailed => {}
        SteamError::AccountLockedDown => {}
        SteamError::AccountLogonDeniedVerifiedEmailRequired => {}
        SteamError::NoMatchingURL => {}
        SteamError::BadResponse => {}
        SteamError::RequirePasswordReEntry => {}
        SteamError::ValueOutOfRange => {}
        SteamError::UnexpectedError => {}
        SteamError::Disabled => {}
        SteamError::InvalidCEGSubmission => {}
        SteamError::RestrictedDevice => {}
        SteamError::RegionLocked => {}
        SteamError::RateLimitExceeded => {}
        SteamError::AccountLoginDeniedNeedTwoFactor => {}
        SteamError::ItemDeleted => {}
        SteamError::AccountLoginDeniedThrottle => {}
        SteamError::TwoFactorCodeMismatch => {}
        SteamError::TwoFactorActivationCodeMismatch => {}
        SteamError::AccountAssociatedToMultiplePartners => {}
        SteamError::NotModified => {}
        SteamError::NoMobileDevice => {}
        SteamError::TimeNotSynced => {}
        SteamError::SmsCodeFailed => {}
        SteamError::AccountLimitExceeded => {}
        SteamError::AccountActivityLimitExceeded => {}
        SteamError::PhoneActivityLimitExceeded => {}
        SteamError::RefundToWallet => {}
        SteamError::EmailSendFailure => {}
        SteamError::NotSettled => {}
        SteamError::NeedCaptcha => {}
        SteamError::GSLTDenied => {}
        SteamError::GSOwnerDenied => {}
        SteamError::InvalidItemType => {}
        SteamError::IPBanned => {}
        SteamError::GSLTExpired => {}
        SteamError::InsufficientFunds => {}
        SteamError::TooManyPending => {}
        SteamError::NoSiteLicensesFound => {}
        SteamError::WGNetworkSendExceeded => {}
    }
}

/// The mapping is injective: no two distinct variants share a numeric tag,
/// so no two distinct external failure codes map to the same variant.
pub proof fn lemma_code_injective(a: SteamError, b: SteamError)
    requires
        code_of(a) == code_of(b),
    ensures
        a == b,
{
    lemma_code_round_trip(a);
    lemma_code_round_trip(b);
}

/// The table is exhaustive over the defined external failure codes: an
/// integer is a defined failure code exactly when it denotes an error
/// variant other than `InitFailed` (whose tag no external code produces).
pub proof fn lemma_failure_codes_covered(c: int)
    ensures
        is_failure_code(c) <==> (error_of_code(c) matches Some(e) && e != SteamError::InitFailed),
{
}

} // verus!
