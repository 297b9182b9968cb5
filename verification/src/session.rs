//! Session detection and validation rules.
//!
//! The collaborator that reads environment variables, the file system
//! and the search path hands its findings in as one plain snapshot; the
//! decisions about what makes a usable session are verified here.

use vstd::prelude::*;
use vstd::string::StringExecFns;
use crate::error::{NiriSpacerError, SpacerResult};
use crate::wire::{clone_opt_string, view_opt_str};

verus! {

/// What the environment collaborator observed: variables, socket file
/// facts, and which helper programs the search path offers.
#[derive(Debug)]
pub struct SessionEnvironment {
    /// The compositor socket path variable, when set.
    pub niri_socket: Option<String>,
    /// Whether the socket path exists on disk.
    pub socket_exists: bool,
    /// The socket file's permission bits, when its metadata could be
    /// read.
    pub socket_mode: Option<u32>,
    pub wayland_display: Option<String>,
    pub session_type: Option<String>,
    pub session_desktop: Option<String>,
    pub current_desktop: Option<String>,
    /// Whether the `foot` terminal is on the search path.
    pub foot_available: bool,
    /// Whether `bash` is on the search path.
    pub bash_available: bool,
}

/// Information about the detected session.
#[derive(Debug, PartialEq, Eq)]
pub struct NiriSessionInfo {
    pub socket_path: String,
    /// Whether the socket path existed when the session was detected.
    pub socket_exists: bool,
    pub wayland_display: Option<String>,
    pub session_type: Option<String>,
    pub session_desktop: Option<String>,
    pub current_desktop: Option<String>,
    pub is_wayland: bool,
}

impl Clone for NiriSessionInfo {
    /// The copy carries exactly the same fields.
    fn clone(&self) -> (r: Self)
        ensures
            r == *self,
    {
        NiriSessionInfo {
            socket_path: self.socket_path.clone(),
            socket_exists: self.socket_exists,
            wayland_display: clone_opt_string(&self.wayland_display),
            session_type: clone_opt_string(&self.session_type),
            session_desktop: clone_opt_string(&self.session_desktop),
            current_desktop: clone_opt_string(&self.current_desktop),
            is_wayland: self.is_wayland,
        }
    }
}

/// Whether the observed variables indicate a Wayland session.
pub open spec fn is_wayland_session(env_session_type: Option<Seq<char>>, env_wayland_display:
    Option<Seq<char>>) -> bool {
    env_session_type == Some("wayland"@) || env_wayland_display is Some
}

/// Whether the socket's permission bits allow reading and writing by
/// the owner.
pub open spec fn mode_allows_use(mode: u32) -> bool {
    mode & 0o400 != 0 && mode & 0o200 != 0
}

/// What a returned session descriptor says about the observed
/// environment: the socket path is the environment's, the path existed,
/// the display and desktop facts are carried through unchanged, and the
/// Wayland verdict follows the session-type and display variables.
pub open spec fn session_info_matches_env(info: NiriSessionInfo, env: SessionEnvironment) -> bool {
    &&& env.niri_socket matches Some(p) && info.socket_path@ == p@
    &&& info.socket_exists
    &&& view_opt_str(info.wayland_display) == view_opt_str(env.wayland_display)
    &&& view_opt_str(info.session_type) == view_opt_str(env.session_type)
    &&& view_opt_str(info.session_desktop) == view_opt_str(env.session_desktop)
    &&& view_opt_str(info.current_desktop) == view_opt_str(env.current_desktop)
    &&& info.is_wayland == is_wayland_session(
        view_opt_str(env.session_type),
        view_opt_str(env.wayland_display),
    )
}

/// Session detection and validation.
pub struct SessionValidator;

impl SessionValidator {
    /// Detects a usable session from the observed environment: the
    /// socket variable must be set, the path must exist, and its
    /// metadata must have been readable; the session counts as Wayland
    /// when the session type says so or a display variable is set.
    pub fn detect_niri_session(env: &SessionEnvironment) -> (r: SpacerResult<NiriSessionInfo>)
        ensures
            match r {
                Ok(info) => {
                    &&& session_info_matches_env(info, *env)
                    &&& env.socket_exists
                    &&& env.socket_mode is Some
                },
                Err(NiriSpacerError::NoSocketPath) => env.niri_socket is None,
                Err(NiriSpacerError::InvalidSocketPath(p)) => env.niri_socket matches Some(q)
                    && p@ == q@ && !env.socket_exists,
                Err(NiriSpacerError::SocketConnection(_)) => env.niri_socket is Some
                    && env.socket_exists && env.socket_mode is None,
                Err(_) => false,
            },
    {
        let socket_path = match &env.niri_socket {
            Some(p) => p.clone(),
            None => {
                return Err(NiriSpacerError::NoSocketPath);
            },
        };
        if !env.socket_exists {
            return Err(NiriSpacerError::InvalidSocketPath(socket_path));
        }
        if env.socket_mode.is_none() {
            return Err(NiriSpacerError::SocketConnection(
                "Cannot access niri socket".to_owned(),
            ));
        }
        let wayland_literal: String = "wayland".to_owned();
        let is_wayland = match &env.session_type {
            Some(t) => t.eq(&wayland_literal) || env.wayland_display.is_some(),
            None => env.wayland_display.is_some(),
        };
        proof {
            reveal_strlit("wayland");
        }
        Ok(NiriSessionInfo {
            socket_path: socket_path,
            socket_exists: env.socket_exists,
            wayland_display: clone_opt_string(&env.wayland_display),
            session_type: clone_opt_string(&env.session_type),
            session_desktop: clone_opt_string(&env.session_desktop),
            current_desktop: clone_opt_string(&env.current_desktop),
            is_wayland: is_wayland,
        })
    }

    /// Checks that the `foot` terminal is available.
    pub fn validate_foot_terminal(env: &SessionEnvironment) -> (r: SpacerResult<()>)
        ensures
            r is Ok <==> env.foot_available,
            r is Err ==> r matches Err(NiriSpacerError::ProcessSpawn(_)),
    {
        if env.foot_available {
            Ok(())
        } else {
            Err(NiriSpacerError::ProcessSpawn("foot terminal not found in PATH".to_owned()))
        }
    }

    /// Checks that `bash` is available.
    pub fn validate_bash(env: &SessionEnvironment) -> (r: SpacerResult<()>)
        ensures
            r is Ok <==> env.bash_available,
            r is Err ==> r matches Err(NiriSpacerError::ProcessSpawn(_)),
    {
        if env.bash_available {
            Ok(())
        } else {
            Err(NiriSpacerError::ProcessSpawn("bash not found in PATH".to_owned()))
        }
    }

    /// Checks the socket's permission bits.
    pub fn check_permissions(env: &SessionEnvironment) -> (r: SpacerResult<()>)
        ensures
            match r {
                Ok(()) => env.socket_mode matches Some(m) && mode_allows_use(m),
                Err(NiriSpacerError::SocketConnection(_)) => !(env.socket_mode matches Some(m)
                    && mode_allows_use(m)),
                Err(_) => false,
            },
    {
        match env.socket_mode {
            Some(mode) => {
                if mode & 0o400 != 0 && mode & 0o200 != 0 {
                    Ok(())
                } else {
                    Err(NiriSpacerError::SocketConnection(
                        "Insufficient permissions on niri socket".to_owned(),
                    ))
                }
            },
            None => Err(NiriSpacerError::SocketConnection(
                "Cannot access niri socket".to_owned(),
            )),
        }
    }

    /// Runs the full environment validation: session detection, the
    /// helper programs, and the socket permissions. Succeeds exactly
    /// when all four checks pass, and then supplies the session
    /// descriptor read from the environment; each failure yields its
    /// distinct error.
    pub fn validate_environment(env: &SessionEnvironment) -> (r: SpacerResult<NiriSessionInfo>)
        ensures
            match r {
                Ok(info) => {
                    &&& session_info_matches_env(info, *env)
                    &&& env.socket_exists
                    &&& env.socket_mode matches Some(m) && mode_allows_use(m)
                    &&& env.foot_available
                    &&& env.bash_available
                },
                Err(e) => match e {
                    NiriSpacerError::NoSocketPath => env.niri_socket is None,
                    NiriSpacerError::InvalidSocketPath(p) => env.niri_socket matches Some(q)
                        && p@ == q@ && !env.socket_exists,
                    NiriSpacerError::SocketConnection(_) => env.niri_socket is Some
                        && env.socket_exists && !(env.socket_mode matches Some(m)
                        && mode_allows_use(m)),
                    NiriSpacerError::ProcessSpawn(_) => env.niri_socket is Some
                        && env.socket_exists && env.socket_mode is Some
                        && !(env.foot_available && env.bash_available),
                    _ => false,
                },
            },
    {
        let info = match Self::detect_niri_session(env) {
            Ok(i) => i,
            Err(e) => {
                return Err(e);
            },
        };
        match Self::validate_foot_terminal(env) {
            Ok(()) => {},
            Err(e) => {
                return Err(e);
            },
        }
        match Self::validate_bash(env) {
            Ok(()) => {},
            Err(e) => {
                return Err(e);
            },
        }
        match Self::check_permissions(env) {
            Ok(()) => {},
            Err(e) => {
                return Err(e);
            },
        }
        Ok(info)
    }

    /// Runs the validation needed for native windows only: session
    /// detection and socket permissions, without the helper programs.
    /// On success it supplies the session descriptor read from the
    /// environment; each failure yields its distinct error.
    pub fn validate_environment_native_only(env: &SessionEnvironment) -> (r: SpacerResult<
        NiriSessionInfo,
    >)
        ensures
            match r {
                Ok(info) => {
                    &&& session_info_matches_env(info, *env)
                    &&& env.socket_exists
                    &&& env.socket_mode matches Some(m) && mode_allows_use(m)
                },
                Err(e) => match e {
                    NiriSpacerError::NoSocketPath => env.niri_socket is None,
                    NiriSpacerError::InvalidSocketPath(p) => env.niri_socket matches Some(q)
                        && p@ == q@ && !env.socket_exists,
                    NiriSpacerError::SocketConnection(_) => env.niri_socket is Some
                        && env.socket_exists && !(env.socket_mode matches Some(m)
                        && mode_allows_use(m)),
                    _ => false,
                },
            },
    {
        let info = match Self::detect_niri_session(env) {
            Ok(i) => i,
            Err(e) => {
                return Err(e);
            },
        };
        match Self::check_permissions(env) {
            Ok(()) => {},
            Err(e) => {
                return Err(e);
            },
        }
        Ok(info)
    }
}

/// The session summary's exact text.
pub open spec fn session_summary_spec(info: NiriSessionInfo) -> Seq<char> {
    "socket="@ + info.socket_path@ + ", wayland="@ + (match info.wayland_display {
        Some(d) => d@,
        None => "none"@,
    }) + ", type="@ + (match info.session_type {
        Some(t) => t@,
        None => "none"@,
    }) + ", desktop="@ + (match info.current_desktop {
        Some(d) => d@,
        None => "none"@,
    })
}

impl NiriSessionInfo {
    /// A one-line, human-readable summary of the session.
    pub fn summary(&self) -> (r: String)
        ensures
            r@ == session_summary_spec(*self),
    {
        let mut s = "socket=".to_owned();
        s.append(self.socket_path.as_str());
        s.append(", wayland=");
        match &self.wayland_display {
            Some(d) => s.append(d.as_str()),
            None => s.append("none"),
        }
        s.append(", type=");
        match &self.session_type {
            Some(t) => s.append(t.as_str()),
            None => s.append("none"),
        }
        s.append(", desktop=");
        match &self.current_desktop {
            Some(d) => s.append(d.as_str()),
            None => s.append("none"),
        }
        s
    }

    /// Whether this looks like a proper session: the socket existed and
    /// the session is Wayland.
    pub fn is_valid_niri_session(&self) -> (r: bool)
        ensures
            r == (self.socket_exists && self.is_wayland),
    {
        self.socket_exists && self.is_wayland
    }

    /// Recommendations derived from the session facts, in a fixed
    /// order; a session with nothing to improve gets the single
    /// all-clear line.
    pub fn get_recommendations(&self) -> (r: Vec<String>)
        ensures
            r.deep_view() == recommendations_spec(*self),
    {
        let mut recs: Vec<String> = Vec::new();
        if !self.is_wayland {
            recs.push(
                "Consider switching to a Wayland session for better niri compatibility"
                    .to_owned(),
            );
        }
        let desktop_is_niri = opt_str_is(&self.session_desktop, "niri") || opt_str_is(
            &self.current_desktop,
            "niri",
        );
        if !desktop_is_niri {
            recs.push(
                "XDG desktop variables don't indicate niri - this may be expected".to_owned(),
            );
        }
        if self.wayland_display.is_none() {
            recs.push(
                "WAYLAND_DISPLAY not set - this may cause issues with some applications"
                    .to_owned(),
            );
        }
        if recs.len() == 0 {
            recs.push("Session configuration looks good".to_owned());
        }
        proof {
            assert(recs.deep_view() =~= recommendations_spec(*self));
        }
        recs
    }
}

/// Whether an optional string holds exactly the given text.
fn opt_str_is(o: &Option<String>, text: &str) -> (r: bool)
    ensures
        r == (view_opt_str(*o) == Some(text@)),
{
    match o {
        Some(s) => {
            let t: String = text.to_owned();
            s.eq(&t)
        },
        None => false,
    }
}

/// The exact recommendation lines for a session.
pub open spec fn recommendations_spec(info: NiriSessionInfo) -> Seq<Seq<char>> {
    let base = (if !info.is_wayland {
        seq!["Consider switching to a Wayland session for better niri compatibility"@]
    } else {
        Seq::<Seq<char>>::empty()
    }) + (if !(view_opt_str(info.session_desktop) == Some("niri"@) || view_opt_str(
        info.current_desktop,
    ) == Some("niri"@)) {
        seq!["XDG desktop variables don't indicate niri - this may be expected"@]
    } else {
        Seq::<Seq<char>>::empty()
    }) + (if info.wayland_display is None {
        seq!["WAYLAND_DISPLAY not set - this may cause issues with some applications"@]
    } else {
        Seq::<Seq<char>>::empty()
    });
    if base.len() == 0 {
        seq!["Session configuration looks good"@]
    } else {
        base
    }
}

} // verus!
