use steam_errors::SteamError;

fn all_errors() -> Vec<SteamError> {
    vec![
        SteamError::InitFailed,
        SteamError::Generic,
        SteamError::NoConnection,
        SteamError::InvalidPassword,
        SteamError::LoggedInElsewhere,
        SteamError::InvalidProtocolVersion,
        SteamError::InvalidParameter,
        SteamError::FileNotFound,
        SteamError::Busy,
        SteamError::InvalidState,
        SteamError::InvalidName,
        SteamError::InvalidEmail,
        SteamError::DuplicateName,
        SteamError::AccessDenied,
        SteamError::Timeout,
        SteamError::Banned,
        SteamError::AccountNotFound,
        SteamError::InvalidSteamID,
        SteamError::ServiceUnavailable,
        SteamError::NotLoggedOn,
        SteamError::Pending,
        SteamError::EncryptionFailure,
        SteamError::InsufficientPrivilege,
        SteamError::LimitExceeded,
        SteamError::Revoked,
        SteamError::Expired,
        SteamError::AlreadyRedeemed,
        SteamError::DuplicateRequest,
        SteamError::AlreadyOwned,
        SteamError::IPNotFound,
        SteamError::PersistFailed,
        SteamError::LockingFailed,
        SteamError::LogonSessionReplaced,
        SteamError::ConnectFailed,
        SteamError::HandshakeFailed,
        SteamError::IOFailure,
        SteamError::RemoteDisconnect,
        SteamError::ShoppingCartNotFound,
        SteamError::Blocked,
        SteamError::Ignored,
        SteamError::NoMatch,
        SteamError::AccountDisabled,
        SteamError::ServiceReadOnly,
        SteamError::AccountNotFeatured,
        SteamError::AdministratorOK,
        SteamError::ContentVersion,
        SteamError::TryAnotherCM,
        SteamError::PasswordRequiredToKickSession,
        SteamError::AlreadyLoggedInElsewhere,
        SteamError::Suspended,
        SteamError::Cancelled,
        SteamError::DataCorruption,
        SteamError::DiskFull,
        SteamError::RemoteCallFailed,
        SteamError::PasswordUnset,
        SteamError::ExternalAccountUnlinked,
        SteamError::PSNTicketInvalid,
        SteamError::ExternalAccountAlreadyLinked,
        SteamError::RemoteFileConflict,
        SteamError::IllegalPassword,
        SteamError::SameAsPreviousValue,
        SteamError::AccountLogonDenied,
        SteamError::CannotUseOldPassword,
        SteamError::InvalidLoginAuthCode,
        SteamError::AccountLogonDeniedNoMail,
        SteamError::HardwareNotCapableOfIPT,
        SteamError::IPTInitError,
        SteamError::ParentalControlRestricted,
        SteamError::FacebookQueryError,
        SteamError::ExpiredLoginAuthCode,
        SteamError::IPLoginRestrictionFailed,
        SteamError::AccountLockedDown,
        SteamError::AccountLogonDeniedVerifiedEmailRequired,
        SteamError::NoMatchingURL,
        SteamError::BadResponse,
        SteamError::RequirePasswordReEntry,
        SteamError::ValueOutOfRange,
        SteamError::UnexpectedError,
        SteamError::Disabled,
        SteamError::InvalidCEGSubmission,
        SteamError::RestrictedDevice,
        SteamError::RegionLocked,
        SteamError::RateLimitExceeded,
        SteamError::AccountLoginDeniedNeedTwoFactor,
        SteamError::ItemDeleted,
        SteamError::AccountLoginDeniedThrottle,
        SteamError::TwoFactorCodeMismatch,
        SteamError::TwoFactorActivationCodeMismatch,
        SteamError::AccountAssociatedToMultiplePartners,
        SteamError::NotModified,
        SteamError::NoMobileDevice,
        SteamError::TimeNotSynced,
        SteamError::SmsCodeFailed,
        SteamError::AccountLimitExceeded,
        SteamError::AccountActivityLimitExceeded,
        SteamError::PhoneActivityLimitExceeded,
        SteamError::RefundToWallet,
        SteamError::EmailSendFailure,
        SteamError::NotSettled,
        SteamError::NeedCaptcha,
        SteamError::GSLTDenied,
        SteamError::GSOwnerDenied,
        SteamError::InvalidItemType,
        SteamError::IPBanned,
        SteamError::GSLTExpired,
        SteamError::InsufficientFunds,
        SteamError::TooManyPending,
        SteamError::NoSiteLicensesFound,
        SteamError::WGNetworkSendExceeded,
    ]
}

#[test]
fn descriptions_are_nonempty() {
    for e in all_errors() {
        assert!(!e.describe().is_empty());
    }
}

#[test]
fn descriptions_are_stable() {
    for e in all_errors() {
        let first = e.describe();
        let second = e.describe();
        assert_eq!(first, second);
    }
}

#[test]
fn named_descriptions() {
    assert_eq!(
        SteamError::InitFailed.describe(),
        "failed to init the steamworks API"
    );
    assert_eq!(
        SteamError::Generic.describe(),
        "a generic failure from the steamworks API"
    );
    assert_eq!(SteamError::Timeout.describe(), "operation timed out");
    assert_eq!(SteamError::AccessDenied.describe(), "access denied");
    assert_eq!(SteamError::Banned.describe(), "VAC2 banned");
    assert_eq!(
        SteamError::WGNetworkSendExceeded.describe(),
        "WG network send size exceeded"
    );
}
