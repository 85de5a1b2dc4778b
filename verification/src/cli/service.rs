//! Running the gateway as a service, and showing how it stands.

use crate::cli::notice::{note, note_with, Notice};
use crate::text::{
    before_first, cat2, cat3, cat5, decimal, decimal_of, join, join_texts, parse_unsigned,
    part_before, replace, replaced, str_eq, trimmed, unsigned_of,
};
use vstd::prelude::*;
use vstd::string::*;

verus! {

/// The systemd unit of the gateway.
pub open spec fn systemd_unit(
    executable: Seq<char>,
    config_path: Seq<char>,
    state_dir: Seq<char>,
) -> Seq<char> {
    "[Unit]\nDescription=FrankClaw Gateway\nAfter=network-online.target\nWants=network-online.target\n\n[Service]\nType=simple\nExecStart="@
        + executable + " gateway --config "@ + config_path + " --state-dir "@ + (state_dir
        + "\nWorkingDirectory="@ + state_dir
        + "\nRestart=on-failure\nRestartSec=5\nEnvironment=RUST_LOG=info\n# Environment=FRANKCLAW_MASTER_KEY=...\n\n[Install]\nWantedBy=default.target\n"@)
}

/// The systemd unit of the gateway.
pub fn render_systemd_unit(executable: &str, config_path: &str, state_dir: &str) -> (r: String)
    ensures
        r@ == systemd_unit(executable@, config_path@, state_dir@),
{
    let head = cat5(
        "[Unit]\nDescription=FrankClaw Gateway\nAfter=network-online.target\nWants=network-online.target\n\n[Service]\nType=simple\nExecStart=",
        executable,
        " gateway --config ",
        config_path,
        " --state-dir ",
    );
    let place = cat3(state_dir, "\nWorkingDirectory=", state_dir);
    let tail = cat2(
        place.as_str(),
        "\nRestart=on-failure\nRestartSec=5\nEnvironment=RUST_LOG=info\n# Environment=FRANKCLAW_MASTER_KEY=...\n\n[Install]\nWantedBy=default.target\n",
    );
    cat2(head.as_str(), tail.as_str())
}

/// The example of a channel's settings.
pub open spec fn channel_example(channel: Seq<char>) -> Option<Seq<char>> {
    if channel == "web"@ {
        Some(
            "{\n  \"channels\": {\n    \"web\": {\n      \"enabled\": true,\n      \"accounts\": [],\n      \"dm_policy\": \"open\"\n    }\n  }\n}\n"@,
        )
    } else if channel == "telegram"@ {
        Some(
            "{\n  \"channels\": {\n    \"telegram\": {\n      \"enabled\": true,\n      \"accounts\": [{ \"bot_token_env\": \"TELEGRAM_BOT_TOKEN\" }]\n    }\n  }\n}\n"@,
        )
    } else if channel == "discord"@ {
        Some(
            "{\n  \"channels\": {\n    \"discord\": {\n      \"enabled\": true,\n      \"accounts\": [{ \"bot_token_env\": \"DISCORD_BOT_TOKEN\" }]\n    }\n  }\n}\n"@,
        )
    } else if channel == "slack"@ {
        Some(
            "{\n  \"channels\": {\n    \"slack\": {\n      \"enabled\": true,\n      \"accounts\": [{ \"app_token_env\": \"SLACK_APP_TOKEN\", \"bot_token_env\": \"SLACK_BOT_TOKEN\" }]\n    }\n  }\n}\n"@,
        )
    } else if channel == "signal"@ {
        Some(
            "{\n  \"channels\": {\n    \"signal\": {\n      \"enabled\": true,\n      \"accounts\": [{ \"base_url_env\": \"SIGNAL_BASE_URL\", \"account_env\": \"SIGNAL_ACCOUNT\" }]\n    }\n  }\n}\n"@,
        )
    } else if channel == "whatsapp"@ {
        Some(
            "{\n  \"channels\": {\n    \"whatsapp\": {\n      \"enabled\": true,\n      \"accounts\": [{\n        \"access_token_env\": \"WHATSAPP_ACCESS_TOKEN\",\n        \"phone_number_id_env\": \"WHATSAPP_PHONE_NUMBER_ID\",\n        \"verify_token_env\": \"WHATSAPP_VERIFY_TOKEN\",\n        \"app_secret_env\": \"WHATSAPP_APP_SECRET\"\n      }]\n    }\n  }\n}\n"@,
        )
    } else if channel == "email"@ {
        Some(
            "{\n  \"channels\": {\n    \"email\": {\n      \"enabled\": true,\n      \"accounts\": [{\n        \"imap_server\": \"imap.gmail.com\",\n        \"imap_port\": 993,\n        \"smtp_server\": \"smtp.gmail.com\",\n        \"smtp_port\": 587,\n        \"imap_user_env\": \"EMAIL_USER\",\n        \"imap_password_env\": \"EMAIL_PASSWORD\",\n        \"smtp_user_env\": \"EMAIL_USER\",\n        \"smtp_password_env\": \"EMAIL_PASSWORD\",\n        \"smtp_from_env\": \"EMAIL_USER\",\n        \"poll_interval_secs\": 30,\n        \"allowed_senders\": []\n      }]\n    }\n  }\n}\n"@,
        )
    } else {
        None
    }
}

/// The example of a channel's settings; none for a channel that is not
/// supported.
pub fn supported_channel_example(channel: &str) -> (r: Option<&'static str>)
    ensures
        match r {
            Some(text) => channel_example(trimmed(channel@)) == Some(text@),
            None => channel_example(trimmed(channel@)) is None,
        },
{
    let name = channel.trim();
    if str_eq(name, "web") {
        Some(
            "{\n  \"channels\": {\n    \"web\": {\n      \"enabled\": true,\n      \"accounts\": [],\n      \"dm_policy\": \"open\"\n    }\n  }\n}\n",
        )
    } else if str_eq(name, "telegram") {
        Some(
            "{\n  \"channels\": {\n    \"telegram\": {\n      \"enabled\": true,\n      \"accounts\": [{ \"bot_token_env\": \"TELEGRAM_BOT_TOKEN\" }]\n    }\n  }\n}\n",
        )
    } else if str_eq(name, "discord") {
        Some(
            "{\n  \"channels\": {\n    \"discord\": {\n      \"enabled\": true,\n      \"accounts\": [{ \"bot_token_env\": \"DISCORD_BOT_TOKEN\" }]\n    }\n  }\n}\n",
        )
    } else if str_eq(name, "slack") {
        Some(
            "{\n  \"channels\": {\n    \"slack\": {\n      \"enabled\": true,\n      \"accounts\": [{ \"app_token_env\": \"SLACK_APP_TOKEN\", \"bot_token_env\": \"SLACK_BOT_TOKEN\" }]\n    }\n  }\n}\n",
        )
    } else if str_eq(name, "signal") {
        Some(
            "{\n  \"channels\": {\n    \"signal\": {\n      \"enabled\": true,\n      \"accounts\": [{ \"base_url_env\": \"SIGNAL_BASE_URL\", \"account_env\": \"SIGNAL_ACCOUNT\" }]\n    }\n  }\n}\n",
        )
    } else if str_eq(name, "whatsapp") {
        Some(
            "{\n  \"channels\": {\n    \"whatsapp\": {\n      \"enabled\": true,\n      \"accounts\": [{\n        \"access_token_env\": \"WHATSAPP_ACCESS_TOKEN\",\n        \"phone_number_id_env\": \"WHATSAPP_PHONE_NUMBER_ID\",\n        \"verify_token_env\": \"WHATSAPP_VERIFY_TOKEN\",\n        \"app_secret_env\": \"WHATSAPP_APP_SECRET\"\n      }]\n    }\n  }\n}\n",
        )
    } else if str_eq(name, "email") {
        Some(
            "{\n  \"channels\": {\n    \"email\": {\n      \"enabled\": true,\n      \"accounts\": [{\n        \"imap_server\": \"imap.gmail.com\",\n        \"imap_port\": 993,\n        \"smtp_server\": \"smtp.gmail.com\",\n        \"smtp_port\": 587,\n        \"imap_user_env\": \"EMAIL_USER\",\n        \"imap_password_env\": \"EMAIL_PASSWORD\",\n        \"smtp_user_env\": \"EMAIL_USER\",\n        \"smtp_password_env\": \"EMAIL_PASSWORD\",\n        \"smtp_from_env\": \"EMAIL_USER\",\n        \"poll_interval_secs\": 30,\n        \"allowed_senders\": []\n      }]\n    }\n  }\n}\n",
        )
    } else {
        None
    }
}

/// The process id that a file names.
pub open spec fn pid_of(content: Seq<char>) -> Option<u32> {
    let n = unsigned_of(trimmed(content));
    if n is Some && n->0 <= u32::MAX {
        Some(n->0 as u32)
    } else {
        None
    }
}

/// The process id in the content of a process file; none where there is no
/// file or no number in it.
pub fn read_pid_file(content: Option<&str>) -> (r: Option<u32>)
    ensures
        r == match content {
            Some(text) => pid_of(text@),
            None => None,
        },
{
    match content {
        Some(text) => match parse_unsigned(text.trim()) {
            Some(n) => if n <= u32::MAX as u64 {
                Some(n as u32)
            } else {
                None
            },
            None => None,
        },
        None => None,
    }
}

/// How the background process stands; none where none was started.
pub fn daemon_pid_status(pid: Option<u32>, alive: bool) -> (r: Option<Notice>)
    ensures
        match pid {
            Some(pid) => r is Some && r->0@ == note_with(
                if alive {
                    "daemon.running"@
                } else {
                    "daemon.not_running"@
                },
                "pid"@,
                decimal(pid as nat),
            ),
            None => r is None,
        },
{
    match pid {
        Some(pid) => {
            let text = decimal_of(pid as u64);
            if alive {
                Some(Notice::with("daemon.running", "pid", text.as_str()))
            } else {
                Some(Notice::with("daemon.not_running", "pid", text.as_str()))
            }
        },
        None => None,
    }
}

/// The arguments that start the gateway in the background.
pub open spec fn daemon_args(
    config_path: Option<Seq<char>>,
    state_dir: Seq<char>,
    port: Option<u16>,
) -> Seq<Seq<char>> {
    seq!["gateway"@] + (match config_path {
        Some(path) => seq!["--config"@, path],
        None => Seq::empty(),
    }) + seq!["--state-dir"@, state_dir] + (match port {
        Some(port) => seq!["--port"@, decimal(port as nat)],
        None => Seq::empty(),
    })
}

/// The arguments that start the gateway in the background.
pub fn start_args(config_path: Option<&str>, state_dir: &str, port: Option<u16>) -> (r: Vec<String>)
    ensures
        r.deep_view() == daemon_args(
            match config_path {
                Some(path) => Some(path@),
                None => None,
            },
            state_dir@,
            port,
        ),
{
    let mut args: Vec<String> = Vec::new();
    args.push("gateway".to_owned());
    if let Some(path) = config_path {
        args.push("--config".to_owned());
        args.push(path.to_owned());
    }
    args.push("--state-dir".to_owned());
    args.push(state_dir.to_owned());
    if let Some(port) = port {
        args.push("--port".to_owned());
        args.push(decimal_of(port as u64));
    }
    assert(args.deep_view() =~= daemon_args(
        match config_path {
            Some(path) => Some(path@),
            None => None,
        },
        state_dir@,
        port,
    ));
    args
}

/// The language of the messages: the one that was asked for, else that of the
/// system without its encoding, else English.
pub open spec fn locale_of(asked: Option<Seq<char>>, lang: Option<Seq<char>>) -> Seq<char> {
    match asked {
        Some(name) => name,
        None => match lang {
            Some(name) => replaced(before_first(name, '.'), "_"@, "-"@),
            None => "en"@,
        },
    }
}

/// The language of the messages.
pub fn locale(asked: Option<&str>, lang: Option<&str>) -> (r: String)
    ensures
        r@ == locale_of(
            match asked {
                Some(name) => Some(name@),
                None => None,
            },
            match lang {
                Some(name) => Some(name@),
                None => None,
            },
        ),
{
    match asked {
        Some(name) => name.to_owned(),
        None => match lang {
            Some(name) => {
                proof {
                    reveal_strlit("_");
                }
                replace(part_before(name, '.').as_str(), "_", "-")
            },
            None => "en".to_owned(),
        },
    }
}

/// What a skill may do.
#[derive(Clone, Copy, Debug, PartialEq, Eq, Structural)]
pub enum SkillCapability {
    Prompt,
    ReadSession,
}

/// The name of what a skill may do.
pub fn display_skill_capability(capability: SkillCapability) -> (r: &'static str)
    ensures
        r@ == match capability {
            SkillCapability::Prompt => "prompt"@,
            SkillCapability::ReadSession => "read_session"@,
        },
{
    match capability {
        SkillCapability::Prompt => "prompt",
        SkillCapability::ReadSession => "read_session",
    }
}

/// Who can reach the gateway.
#[derive(Debug)]
pub enum ExposureSurface {
    Loopback,
    Lan,
    PrivateAddress(String),
    PublicAddress(String),
}

/// Who can reach the gateway, in words.
pub fn display_exposure_surface(surface: &ExposureSurface) -> (r: String)
    ensures
        r@ == match *surface {
            ExposureSurface::Loopback => "loopback"@,
            ExposureSurface::Lan => "lan"@,
            ExposureSurface::PrivateAddress(address) => "private_address:"@ + address@,
            ExposureSurface::PublicAddress(address) => "public_address:"@ + address@,
        },
{
    match surface {
        ExposureSurface::Loopback => "loopback".to_owned(),
        ExposureSurface::Lan => "lan".to_owned(),
        ExposureSurface::PrivateAddress(address) => cat2("private_address:", address.as_str()),
        ExposureSurface::PublicAddress(address) => cat2("public_address:", address.as_str()),
    }
}

/// Whether the gateway is fit for the exposure that is asked for.
pub fn remote_check(public: bool, public_ready: bool, remote_ready: bool) -> (r: Result<(), Notice>)
    ensures
        r is Ok == if public {
            public_ready
        } else {
            remote_ready
        },
        r is Err ==> r->Err_0@ == if public {
            note("cmd.remote.not_public"@)
        } else {
            note("cmd.remote.not_remote"@)
        },
{
    if public {
        if !public_ready {
            return Err(Notice::new("cmd.remote.not_public"));
        }
    } else if !remote_ready {
        return Err(Notice::new("cmd.remote.not_remote"));
    }
    Ok(())
}

/// Names in a row, or a dash where there is none.
pub open spec fn row_of(names: Seq<Seq<char>>) -> Seq<char> {
    if names.len() == 0 {
        "-"@
    } else {
        join(names, ", "@)
    }
}

fn name_row(names: &Vec<String>) -> (r: String)
    ensures
        r@ == row_of(names.deep_view()),
{
    if names.len() == 0 {
        "-".to_owned()
    } else {
        join_texts(names, ", ")
    }
}

/// The line on an agent: its model, else the default one, its tools and its
/// skills.
pub fn agent_line(
    id: &str,
    model: &Option<String>,
    default_model: &Option<String>,
    tools: &Vec<String>,
    skills: &Vec<String>,
    unset: &str,
) -> (r: String)
    ensures
        r@ == "  "@ + id@ + "  model="@ + (match *model {
            Some(name) => name@,
            None => match *default_model {
                Some(name) => name@,
                None => unset@,
            },
        }) + "  tools="@ + (row_of(tools.deep_view()) + "  skills="@ + row_of(skills.deep_view())),
{
    let model = match model {
        Some(name) => name.as_str(),
        None => match default_model {
            Some(name) => name.as_str(),
            None => unset,
        },
    };
    let head = cat5("  ", id, "  model=", model, "  tools=");
    let tail = cat3(name_row(tools).as_str(), "  skills=", name_row(skills).as_str());
    cat2(head.as_str(), tail.as_str())
}

/// How often a process that was asked to end is given time to do so.
pub const MAX_LOOKS: u32 = 20;

/// What to do about a process that was asked to end.
#[derive(Clone, Copy, Debug, PartialEq, Eq, Structural)]
pub enum StopStep {
    /// It has ended.
    Done,
    /// Give it some time, then look again.
    WaitAndLook,
    /// End it by force.
    Force,
}

/// What to do about a process that was asked to end, given how often it was
/// given time before and whether it is still there.
pub fn stop_step(looks: u32, alive: bool) -> (r: StopStep)
    ensures
        r == if !alive {
            StopStep::Done
        } else if looks < MAX_LOOKS {
            StopStep::WaitAndLook
        } else {
            StopStep::Force
        },
{
    if !alive {
        StopStep::Done
    } else if looks < MAX_LOOKS {
        StopStep::WaitAndLook
    } else {
        StopStep::Force
    }
}

} // verus!
