use vstd::prelude::*;

verus! {

/// Severity / category of a log message.
#[derive(PartialEq, Eq, Structural, Clone, Copy, Debug)]
pub enum LogLevel {
    Info,
    Success,
    Warning,
    Error,
    Verbose,
    Keyboard,
    Mouse,
    Physics,
}

/// Logging configuration: a master switch and one switch per optional category.
#[derive(Debug)]
pub struct Logger {
    is_enabled: bool,
    verbose: bool,
    keyboard: bool,
    mouse: bool,
    physics: bool,
}

/// ANSI colour prefix, level tag and colour suffix printed for a level.
pub open spec fn level_strings(level: LogLevel) -> (Seq<char>, Seq<char>, Seq<char>) {
    match level {
        LogLevel::Info => (""@, "INFO"@, ""@),
        LogLevel::Success => ("\x1b[32m"@, "SUCCESS"@, "\x1b[0m"@),
        LogLevel::Warning => ("\x1b[33m"@, "WARNING"@, "\x1b[0m"@),
        LogLevel::Error => ("\x1b[31m"@, "ERROR"@, "\x1b[0m"@),
        LogLevel::Verbose => ("\x1b[38;2;0;196;181m"@, "VERBOSE"@, "\x1b[0m"@),
        LogLevel::Keyboard => ("\x1b[38;2;3;79;42m"@, "KEYBOARD"@, "\x1b[0m"@),
        LogLevel::Mouse => ("\x1b[38;2;31;61;112m"@, "MOUSE"@, "\x1b[0m"@),
        LogLevel::Physics => ("\x1b[38;2;200;200;200m"@, "PHYSICS"@, "\x1b[0m"@),
    }
}

/// One printed line: `{left}[{tag}]: {text}{right}`.
pub open spec fn styled_line(left: Seq<char>, tag: Seq<char>, text: Seq<char>, right: Seq<char>) -> Seq<char> {
    left + "["@ + tag + "]: "@ + text + right
}

impl Logger {
    pub closed spec fn enabled(&self) -> bool {
        self.is_enabled
    }

    pub closed spec fn verbose_on(&self) -> bool {
        self.verbose
    }

    pub closed spec fn keyboard_on(&self) -> bool {
        self.keyboard
    }

    pub closed spec fn mouse_on(&self) -> bool {
        self.mouse
    }

    pub closed spec fn physics_on(&self) -> bool {
        self.physics
    }

    /// Whether a message of `level` is printed by `log`.
    pub open spec fn prints(&self, level: LogLevel) -> bool {
        &&& self.enabled()
        &&& !(level == LogLevel::Verbose && !self.verbose_on())
        &&& !(level == LogLevel::Keyboard && !self.keyboard_on())
        &&& !(level == LogLevel::Mouse && !self.mouse_on())
        &&& !(level == LogLevel::Physics && !self.physics_on())
    }

    /// Whether a list of `level` is printed by `log_list` (only the verbose switch
    /// applies to lists).
    pub open spec fn prints_list(&self, level: LogLevel) -> bool {
        self.enabled() && !(level == LogLevel::Verbose && !self.verbose_on())
    }

    /// Builds the logger configuration with the given switches.
    pub fn create(is_enabled: bool, verbose: bool, keyboard: bool, mouse: bool, physics: bool) -> (logger: Logger)
        ensures
            logger.enabled() == is_enabled,
            logger.verbose_on() == verbose,
            logger.keyboard_on() == keyboard,
            logger.mouse_on() == mouse,
            logger.physics_on() == physics,
    {
        Logger { is_enabled, verbose, keyboard, mouse, physics }
    }

    /// The installed global logger. The process-wide cell lives with the program;
    /// reading it before a logger was installed is an error of the caller.
    pub fn get_logger(installed: Option<&'static Logger>) -> (logger: &'static Logger)
        requires
            installed is Some,
        ensures
            logger == installed.unwrap(),
    {
        installed.unwrap()
    }

    /// The line that logging `message` at `level` prints, or `None` when the
    /// configuration filters the message out.
    pub fn log(&self, message: &str, level: LogLevel) -> (line: Option<String>)
        ensures
            line is Some <==> self.prints(level),
            line is Some <==> (self.enabled() && (level == LogLevel::Verbose ==> self.verbose_on()) && (
            level == LogLevel::Keyboard ==> self.keyboard_on()) && (level == LogLevel::Mouse
                ==> self.mouse_on()) && (level == LogLevel::Physics ==> self.physics_on())),
            line matches Some(l) ==> l@ == styled_line(
                level_strings(level).0,
                level_strings(level).1,
                message@,
                level_strings(level).2,
            ),
    {
        if !self.is_enabled {
            return None;
        }
        if (level == LogLevel::Verbose && !self.verbose) || (level == LogLevel::Keyboard
            && !self.keyboard) || (level == LogLevel::Mouse && !self.mouse) || (level
            == LogLevel::Physics && !self.physics) {
            return None;
        }
        let (left_ansi, level_str, right_ansi) = Logger::get_strings(&level);
        Some(styled(left_ansi, level_str, message, right_ansi))
    }

    /// The lines that listing `items` (each already in its debug form) under
    /// `header` at `level` prints, or `None` when the configuration filters the
    /// list out.
    pub fn log_list(&self, header: &str, items: &Vec<String>, level: LogLevel) -> (lines: Option<Vec<String>>)
        ensures
            lines is Some <==> self.prints_list(level),
            lines is Some <==> (self.enabled() && (level == LogLevel::Verbose ==> self.verbose_on())),
            lines matches Some(ls) ==> {
                &&& ls.len() == items.len() + 3
                &&& ls[0]@ == separator_line()
                &&& ls[1]@ == styled_line(
                    level_strings(level).0,
                    level_strings(level).1,
                    header@,
                    level_strings(level).2,
                )
                &&& forall|i: int|
                    0 <= i < items.len() ==> #[trigger] ls[i + 2]@ == styled_line(
                        list_strings(level).0,
                        list_strings(level).1,
                        items[i]@,
                        list_strings(level).2,
                    )
                &&& ls[items.len() + 2]@ == separator_line()
            },
    {
        if !self.is_enabled {
            return None;
        }
        if level == LogLevel::Verbose && !self.verbose {
            return None;
        }
        let (left_ansi, level_str, right_ansi) = Logger::get_strings(&level);
        let mut lines: Vec<String> = Vec::new();
        lines.push(String::from_str("===================================="));
        lines.push(styled(left_ansi, level_str, header, right_ansi));
        let (item_left, item_tag, item_right) = match level {
            LogLevel::Verbose => ("\x1b[36m", "VERBOSE LIST", "\x1b[0m"),
            _ => ("\x1b[38;2;235;122;42m", "LIST", "\x1b[0m"),
        };
        let mut i: usize = 0;
        while i < items.len()
            invariant
                i <= items.len(),
                lines.len() == i + 2,
                lines[0]@ == separator_line(),
                lines[1]@ == styled_line(left_ansi@, level_str@, header@, right_ansi@),
                (item_left@, item_tag@, item_right@) == list_strings(level),
                forall|k: int|
                    0 <= k < i ==> #[trigger] lines[k + 2]@ == styled_line(
                        item_left@,
                        item_tag@,
                        items[k]@,
                        item_right@,
                    ),
            decreases items.len() - i,
        {
            lines.push(styled(item_left, item_tag, items[i].as_str(), item_right));
            i = i + 1;
        }
        lines.push(String::from_str("===================================="));
        Some(lines)
    }

    /// Colour prefix, level tag and colour suffix of a level.
    pub fn get_strings(level: &LogLevel) -> (strings: (&'static str, &'static str, &'static str))
        ensures
            (strings.0@, strings.1@, strings.2@) == level_strings(*level),
    {
        match level {
            LogLevel::Info => ("", "INFO", ""),
            LogLevel::Success => ("\x1b[32m", "SUCCESS", "\x1b[0m"),
            LogLevel::Warning => ("\x1b[33m", "WARNING", "\x1b[0m"),
            LogLevel::Error => ("\x1b[31m", "ERROR", "\x1b[0m"),
            LogLevel::Verbose => ("\x1b[38;2;0;196;181m", "VERBOSE", "\x1b[0m"),
            LogLevel::Keyboard => ("\x1b[38;2;3;79;42m", "KEYBOARD", "\x1b[0m"),
            LogLevel::Mouse => ("\x1b[38;2;31;61;112m", "MOUSE", "\x1b[0m"),
            LogLevel::Physics => ("\x1b[38;2;200;200;200m", "PHYSICS", "\x1b[0m"),
        }
    }
}

/// The rule printed above and below a list.
pub open spec fn separator_line() -> Seq<char> {
    "===================================="@
}

/// Colour prefix, tag and colour suffix of the entries of a list.
pub open spec fn list_strings(level: LogLevel) -> (Seq<char>, Seq<char>, Seq<char>) {
    match level {
        LogLevel::Verbose => ("\x1b[36m"@, "VERBOSE LIST"@, "\x1b[0m"@),
        _ => ("\x1b[38;2;235;122;42m"@, "LIST"@, "\x1b[0m"@),
    }
}

fn styled(left: &str, tag: &str, text: &str, right: &str) -> (line: String)
    ensures
        line@ == styled_line(left@, tag@, text@, right@),
{
    let mut line = String::from_str(left);
    line.append("[");
    line.append(tag);
    line.append("]: ");
    line.append(text);
    line.append(right);
    line
}

/// A message is printed exactly when logging is enabled and, for the optional
/// categories (verbose, keyboard, mouse, physics), that category's own switch is on;
/// info, success, warning and error messages need only the master switch. In
/// particular a disabled category never prints, whatever the other switches say.
pub proof fn lemma_log_filter(logger: &Logger, level: LogLevel)
    ensures
        logger.prints(level) <==> logger.enabled() && match level {
            LogLevel::Verbose => logger.verbose_on(),
            LogLevel::Keyboard => logger.keyboard_on(),
            LogLevel::Mouse => logger.mouse_on(),
            LogLevel::Physics => logger.physics_on(),
            _ => true,
        },
        !logger.enabled() ==> !logger.prints(level) && !logger.prints_list(level),
        level == LogLevel::Mouse && !logger.mouse_on() ==> !logger.prints(level),
        level == LogLevel::Keyboard && !logger.keyboard_on() ==> !logger.prints(level),
        level == LogLevel::Physics && !logger.physics_on() ==> !logger.prints(level),
        level == LogLevel::Verbose && !logger.verbose_on() ==> !logger.prints(level) && !logger.prints_list(
            level,
        ),
        logger.enabled() && level != LogLevel::Verbose ==> logger.prints_list(level),
{
}

} // verus!
