use vstd::prelude::*;

verus! {

/// One of the four things the helper can be asked to do.
#[derive(Clone, Debug, PartialEq, Eq)]
pub enum Command {
    Transcribe { model_path: String, audio_path: String, options_json: Option<String> },
    Listen,
    Write { text: String },
    Paste,
}

/// The command that the process arguments name, the program name first;
/// `None` when they name none.
pub open spec fn command_of(args: Seq<String>) -> Option<Command> {
    if args.len() > 3 && args[1]@ == "transcribe"@ {
        Some(
            Command::Transcribe {
                model_path: args[2],
                audio_path: args[3],
                options_json: if args.len() > 4 {
                    Some(args[4])
                } else {
                    None
                },
            },
        )
    } else if args.len() > 1 && args[1]@ == "listen"@ {
        Some(Command::Listen)
    } else if args.len() > 2 && args[1]@ == "write"@ {
        Some(Command::Write { text: args[2] })
    } else if args.len() > 1 && args[1]@ == "paste"@ {
        Some(Command::Paste)
    } else {
        None
    }
}

/// Reads the command from the process arguments.
pub fn parse_command(args: &Vec<String>) -> (r: Option<Command>)
    ensures
        r == command_of(args@),
{
    let n = args.len();
    if n < 2 {
        return None;
    }
    let verb = &args[1];
    if n > 3 && *verb == String::from_str("transcribe") {
        let options_json = if n > 4 {
            Some(args[4].clone())
        } else {
            None
        };
        return Some(
            Command::Transcribe {
                model_path: args[2].clone(),
                audio_path: args[3].clone(),
                options_json,
            },
        );
    }
    if *verb == String::from_str("listen") {
        return Some(Command::Listen);
    }
    if n > 2 && *verb == String::from_str("write") {
        return Some(Command::Write { text: args[2].clone() });
    }
    if *verb == String::from_str("paste") {
        return Some(Command::Paste);
    }
    None
}

/// The platform family, which decides the paste chord's modifier.
#[derive(Clone, Copy, Debug, PartialEq, Eq)]
pub enum Platform {
    MacOs,
    Other,
}

#[derive(Clone, Copy, Debug, PartialEq, Eq)]
pub enum Modifier {
    Meta,
    Control,
}

/// One step of a synthetic key chord.
#[derive(Clone, Copy, Debug, PartialEq, Eq)]
pub enum KeyAction {
    Press(Modifier),
    Click(char),
    Release(Modifier),
}

pub open spec fn paste_modifier(p: Platform) -> Modifier {
    match p {
        Platform::MacOs => Modifier::Meta,
        Platform::Other => Modifier::Control,
    }
}

/// The key steps that paste: the platform's modifier held around a click of
/// the `v` key.
pub fn paste_chord(platform: Platform) -> (r: Vec<KeyAction>)
    ensures
        r@ == seq![
            KeyAction::Press(paste_modifier(platform)),
            KeyAction::Click('v'),
            KeyAction::Release(paste_modifier(platform)),
        ],
{
    let m = match platform {
        Platform::MacOs => Modifier::Meta,
        Platform::Other => Modifier::Control,
    };
    let r = vec![KeyAction::Press(m), KeyAction::Click('v'), KeyAction::Release(m)];
    assert(r@ =~= seq![KeyAction::Press(m), KeyAction::Click('v'), KeyAction::Release(m)]);
    r
}

} // verus!
