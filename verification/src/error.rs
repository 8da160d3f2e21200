//! Errors that the launcher's logic reports, with the text shown to the user.

use vstd::prelude::*;
use crate::text::{cat, decimal_i32, signed_decimal};

verus! {

/// Why an operation of the launcher was refused or failed.
#[derive(Debug, Clone, PartialEq, Eq)]
pub enum LauncherError {
    /// A service answered with an error status (400 to 599): the status, and the
    /// HTTP client's report of it (the text of reqwest's `error_for_status`
    /// error, which names the status, its reason and the address).
    HttpStatus(u16, String),
    /// A service answered with a body that is not the expected JSON document.
    MalformedReply,
    /// An answer came that does not answer the pending request.
    UnexpectedReply,
    /// A download could not be completed: the application's report of why
    /// (the HTTP client's or the file system's error text).
    Transfer(String),
    /// The Microsoft token endpoint refused the device code for good.
    MicrosoftAuth(String),
    /// The Xbox Live answer carries no user hash.
    MissingUserHash,
    /// XSTS refused the account (no Xbox profile, child account...).
    XboxAccountRestricted,
    /// The Microsoft account does not own Minecraft.
    NoMinecraftLicense,
    /// No device-code sign-in is waiting for the user.
    NoPendingLogin,
    /// No saved account has the requested UUID.
    AccountNotFound,
    /// The version manifest lists no version with the requested id.
    VersionNotFound,
    /// The version has no official server jar.
    NoServerJar,
    /// Paper publishes no build for the version.
    NoPaperBuild,
    /// The Minecraft EULA was not accepted for the server.
    EulaNotAccepted,
    /// The server jar has not been downloaded yet.
    ServerJarMissing,
    /// A Modrinth version lists no file.
    NoVersionFile,
    /// The Forge/NeoForge installer exited with failure (its exit code, if any).
    InstallerFailed(Option<i32>),
}

/// The text shown for an error.
pub open spec fn error_message(e: LauncherError) -> Seq<char> {
    match e {
        LauncherError::HttpStatus(_, report) => report@,
        LauncherError::MalformedReply => "error decoding response body"@,
        LauncherError::UnexpectedReply => "réponse inattendue pour cette étape"@,
        LauncherError::Transfer(report) => report@,
        LauncherError::MicrosoftAuth(other) => "échec auth Microsoft: "@ + other@,
        LauncherError::MissingUserHash => "uhs manquant dans la réponse Xbox Live"@,
        LauncherError::XboxAccountRestricted =>
            "compte Xbox invalide ou restreint (vérifie qu'un profil Xbox existe pour ce compte)"@,
        LauncherError::NoMinecraftLicense => "ce compte Microsoft ne possède pas Minecraft"@,
        LauncherError::NoPendingLogin => "aucune connexion en cours"@,
        LauncherError::AccountNotFound => "compte introuvable"@,
        LauncherError::VersionNotFound => "version Minecraft introuvable"@,
        LauncherError::NoServerJar => "pas de jar serveur officiel pour cette version"@,
        LauncherError::NoPaperBuild => "aucun build Paper disponible pour cette version"@,
        LauncherError::EulaNotAccepted =>
            "l'EULA Minecraft (https://aka.ms/MinecraftEULA) doit être acceptée avant l'installation"@,
        LauncherError::ServerJarMissing =>
            "le jar du serveur n'est pas installé — appelle provision() d'abord"@,
        LauncherError::NoVersionFile => "aucun fichier disponible pour cette version"@,
        LauncherError::InstallerFailed(code) => match code {
            Some(c) => "l'installer Forge/NeoForge a échoué (code Some("@ + signed_decimal(c as int)
                + "))"@,
            None => "l'installer Forge/NeoForge a échoué (code None)"@,
        },
    }
}

impl LauncherError {
    /// The text shown to the user for this error.
    pub fn message(&self) -> (r: String)
        ensures
            r@ == error_message(*self),
    {
        match self {
            LauncherError::HttpStatus(_, report) => report.clone(),
            LauncherError::MalformedReply => "error decoding response body".to_owned(),
            LauncherError::UnexpectedReply => "réponse inattendue pour cette étape".to_owned(),
            LauncherError::Transfer(report) => report.clone(),
            LauncherError::MicrosoftAuth(other) => cat("échec auth Microsoft: ", other.as_str()),
            LauncherError::MissingUserHash => "uhs manquant dans la réponse Xbox Live".to_owned(),
            LauncherError::XboxAccountRestricted =>
                "compte Xbox invalide ou restreint (vérifie qu'un profil Xbox existe pour ce compte)".to_owned(),
            LauncherError::NoMinecraftLicense => "ce compte Microsoft ne possède pas Minecraft".to_owned(),
            LauncherError::NoPendingLogin => "aucune connexion en cours".to_owned(),
            LauncherError::AccountNotFound => "compte introuvable".to_owned(),
            LauncherError::VersionNotFound => "version Minecraft introuvable".to_owned(),
            LauncherError::NoServerJar => "pas de jar serveur officiel pour cette version".to_owned(),
            LauncherError::NoPaperBuild => "aucun build Paper disponible pour cette version".to_owned(),
            LauncherError::EulaNotAccepted =>
                "l'EULA Minecraft (https://aka.ms/MinecraftEULA) doit être acceptée avant l'installation".to_owned(),
            LauncherError::ServerJarMissing =>
                "le jar du serveur n'est pas installé — appelle provision() d'abord".to_owned(),
            LauncherError::NoVersionFile => "aucun fichier disponible pour cette version".to_owned(),
            LauncherError::InstallerFailed(code) => match code {
                Some(c) => {
                    let d = decimal_i32(*c);
                    let head = cat("l'installer Forge/NeoForge a échoué (code Some(", d.as_str());
                    cat(head.as_str(), "))")
                },
                None => "l'installer Forge/NeoForge a échoué (code None)".to_owned(),
            },
        }
    }
}

} // verus!
