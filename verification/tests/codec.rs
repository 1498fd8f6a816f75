use steam_errors::SteamError;

fn every_error() -> Vec<SteamError> {
    vec![
        SteamError::InitFailed,
        SteamError::Generic,
        SteamError::NoConnection,
        SteamError::InvalidPassword,
        SteamError::LoggedInElsewhere,
        SteamError::InvalidProtocolVersion,
        SteamError::InvalidParameter,
        SteamError::FileNotFound,
        SteamError::Busy,
        SteamError::InvalidState,
        SteamError::InvalidName,
        SteamError::InvalidEmail,
        SteamError::DuplicateName,
        SteamError::AccessDenied,
        SteamError::Timeout,
        SteamError::Banned,
        SteamError::AccountNotFound,
        SteamError::InvalidSteamID,
        SteamError::ServiceUnavailable,
        SteamError::NotLoggedOn,
        SteamError::Pending,
        SteamError::EncryptionFailure,
        SteamError::InsufficientPrivilege,
        SteamError::LimitExceeded,
        SteamError::Revoked,
        SteamError::Expired,
        SteamError::AlreadyRedeemed,
        SteamError::DuplicateRequest,
        SteamError::AlreadyOwned,
        SteamError::IPNotFound,
        SteamError::PersistFailed,
        SteamError::LockingFailed,
        SteamError::LogonSessionReplaced,
        SteamError::ConnectFailed,
        SteamError::HandshakeFailed,
        SteamError::IOFailure,
        SteamError::RemoteDisconnect,
        SteamError::ShoppingCartNotFound,
        SteamError::Blocked,
        SteamError::Ignored,
        SteamError::NoMatch,
        SteamError::AccountDisabled,
        SteamError::ServiceReadOnly,
        SteamError::AccountNotFeatured,
        SteamError::AdministratorOK,
        SteamError::ContentVersion,
        SteamError::TryAnotherCM,
        SteamError::PasswordRequiredToKickSession,
        SteamError::AlreadyLoggedInElsewhere,
        SteamError::Suspended,
        SteamError::Cancelled,
        SteamError::DataCorruption,
        SteamError::DiskFull,
        SteamError::RemoteCallFailed,
        SteamError::PasswordUnset,
        SteamError::ExternalAccountUnlinked,
        SteamError::PSNTicketInvalid,
        SteamError::ExternalAccountAlreadyLinked,
        SteamError::RemoteFileConflict,
        SteamError::IllegalPassword,
        SteamError::SameAsPreviousValue,
        SteamError::AccountLogonDenied,
        SteamError::CannotUseOldPassword,
        SteamError::InvalidLoginAuthCode,
        SteamError::AccountLogonDeniedNoMail,
        SteamError::HardwareNotCapableOfIPT,
        SteamError::IPTInitError,
        SteamError::ParentalControlRestricted,
        SteamError::FacebookQueryError,
        SteamError::ExpiredLoginAuthCode,
        SteamError::IPLoginRestrictionFailed,
        SteamError::AccountLockedDown,
        SteamError::AccountLogonDeniedVerifiedEmailRequired,
        SteamError::NoMatchingURL,
        SteamError::BadResponse,
        SteamError::RequirePasswordReEntry,
        SteamError::ValueOutOfRange,
        SteamError::UnexpectedError,
        SteamError::Disabled,
        SteamError::InvalidCEGSubmission,
        SteamError::RestrictedDevice,
        SteamError::RegionLocked,
        SteamError::RateLimitExceeded,
        SteamError::AccountLoginDeniedNeedTwoFactor,
        SteamError::ItemDeleted,
        SteamError::AccountLoginDeniedThrottle,
        SteamError::TwoFactorCodeMismatch,
        SteamError::TwoFactorActivationCodeMismatch,
        SteamError::AccountAssociatedToMultiplePartners,
        SteamError::NotModified,
        SteamError::NoMobileDevice,
        SteamError::TimeNotSynced,
        SteamError::SmsCodeFailed,
        SteamError::AccountLimitExceeded,
        SteamError::AccountActivityLimitExceeded,
        SteamError::PhoneActivityLimitExceeded,
        SteamError::RefundToWallet,
        SteamError::EmailSendFailure,
        SteamError::NotSettled,
        SteamError::NeedCaptcha,
        SteamError::GSLTDenied,
        SteamError::GSOwnerDenied,
        SteamError::InvalidItemType,
        SteamError::IPBanned,
        SteamError::GSLTExpired,
        SteamError::InsufficientFunds,
        SteamError::TooManyPending,
        SteamError::NoSiteLicensesFound,
        SteamError::WGNetworkSendExceeded,
    ]
}

#[test]
fn encode_decode_round_trip() {
    for e in every_error() {
        assert_eq!(SteamError::decode(e.encode()), Some(e));
    }
}

#[test]
fn decode_rejects_unused_tags() {
    for tag in [1u32, 4, 111, 9999, u32::MAX] {
        assert_eq!(SteamError::decode(tag), None);
    }
}

#[test]
fn tags_are_unique() {
    let errors = every_error();
    for (i, a) in errors.iter().enumerate() {
        for b in errors.iter().skip(i + 1) {
            assert_ne!(a.encode(), b.encode());
        }
    }
}

#[test]
fn tags_agree_with_external_codes() {
    for e in every_error() {
        let tag = e.encode();
        if e == SteamError::InitFailed {
            assert_eq!(tag, 0);
            assert_eq!(SteamError::try_from_external(tag as i32), None);
        } else {
            assert_eq!(SteamError::try_from_external(tag as i32), Some(e));
        }
    }
}

#[test]
fn handled_code_count_matches_variant_count() {
    let mut handled = 0;
    for code in 0..=1000i32 {
        if SteamError::try_from_external(code).is_some() {
            handled += 1;
        }
    }
    assert_eq!(handled + 1, every_error().len());
}
