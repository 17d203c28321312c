//! How a file is opened, and how one is removed.
use vstd::prelude::*;

verus! {

/// A builder for opening files with preconfigured options.
#[derive(Debug)]
#[non_exhaustive]
pub struct OpenOptions {
    /// Open the file in read mode.
    pub read: bool,
    /// Open the file in write mode.
    pub write: bool,
    /// Open the file in append mode.
    pub append: bool,
    /// Whether to truncate the previous file.
    pub truncate: bool,
    /// Whether to create the file if it doesn't exist.
    pub create: bool,
    /// Whether to create the file if it doesn't exist, and fail if it does.
    pub create_new: bool,
    /// The mode to use when creating the file (on Unix).
    pub mode: Option<u32>,
    /// The access mode for the file (on Windows).
    pub access_mode: Option<u32>,
    /// The share mode for the file (on Windows).
    pub share_mode: Option<u32>,
    /// The flags for the file.
    pub custom_flags: Option<u32>,
    /// The attributes for the file (on Windows).
    pub attributes: Option<u32>,
    /// The security QOS for the file (on Windows).
    pub security_qos_flags: Option<u32>,
}

/// One option to switch on in the standard library's builder, whose options all start
/// switched off.
#[derive(Debug, Copy, Clone, PartialEq, Eq, Structural)]
pub enum Setting {
    /// Open in read mode.
    Read,
    /// Open in write mode.
    Write,
    /// Open in append mode.
    Append,
    /// Truncate the previous file.
    Truncate,
    /// Create the file if it doesn't exist.
    Create,
    /// Create the file, and fail if it exists.
    CreateNew,
    /// Create the file with these permission bits.
    Mode(u32),
    /// Open with this access mode.
    AccessMode(u32),
    /// Open with this share mode.
    ShareMode(u32),
    /// Pass these flags to the system call.
    CustomFlags(u32),
    /// Open with these attributes.
    Attributes(u32),
    /// Open with this security QOS.
    SecurityQosFlags(u32),
}

/// Who carries something out.
#[derive(Debug, Copy, Clone, PartialEq, Eq, Structural)]
pub enum Backend {
    /// The completion queue.
    Queue,
    /// The thread pool.
    Pool,
}

/// A file to open: where it is, what to switch on before opening it, and who opens it.
pub struct Opening<P> {
    /// The path of the file.
    pub path: P,
    /// The options to switch on, in order.
    pub settings: Vec<Setting>,
    /// Who opens the file.
    pub backend: Backend,
}

/// `setting` alone if it is wanted, and nothing otherwise.
pub open spec fn wanted(on: bool, setting: Setting) -> Seq<Setting> {
    if on {
        seq![setting]
    } else {
        seq![]
    }
}

impl OpenOptions {
    /// The options under which nothing is switched on.
    pub open spec fn blank() -> OpenOptions {
        OpenOptions {
            read: false,
            write: false,
            append: false,
            truncate: false,
            create: false,
            create_new: false,
            mode: None,
            access_mode: None,
            share_mode: None,
            custom_flags: None,
            attributes: None,
            security_qos_flags: None,
        }
    }

    /// What these options switch on in the standard library's builder, in order.
    pub open spec fn settings(self) -> Seq<Setting> {
        wanted(self.read, Setting::Read)
            + wanted(self.write, Setting::Write)
            + wanted(self.append, Setting::Append)
            + wanted(self.truncate, Setting::Truncate)
            + wanted(self.create, Setting::Create)
            + wanted(self.create_new, Setting::CreateNew)
            + wanted(self.mode is Some, Setting::Mode(self.mode.unwrap()))
            + wanted(self.access_mode is Some, Setting::AccessMode(self.access_mode.unwrap()))
            + wanted(self.share_mode is Some, Setting::ShareMode(self.share_mode.unwrap()))
            + wanted(self.custom_flags is Some, Setting::CustomFlags(self.custom_flags.unwrap()))
            + wanted(self.attributes is Some, Setting::Attributes(self.attributes.unwrap()))
            + wanted(
            self.security_qos_flags is Some,
            Setting::SecurityQosFlags(self.security_qos_flags.unwrap()),
        )
    }

    /// These options with one more switched on.
    pub open spec fn with(self, setting: Setting) -> OpenOptions {
        match setting {
            Setting::Read => OpenOptions { read: true, ..self },
            Setting::Write => OpenOptions { write: true, ..self },
            Setting::Append => OpenOptions { append: true, ..self },
            Setting::Truncate => OpenOptions { truncate: true, ..self },
            Setting::Create => OpenOptions { create: true, ..self },
            Setting::CreateNew => OpenOptions { create_new: true, ..self },
            Setting::Mode(mode) => OpenOptions { mode: Some(mode), ..self },
            Setting::AccessMode(mode) => OpenOptions { access_mode: Some(mode), ..self },
            Setting::ShareMode(mode) => OpenOptions { share_mode: Some(mode), ..self },
            Setting::CustomFlags(flags) => OpenOptions { custom_flags: Some(flags), ..self },
            Setting::Attributes(flags) => OpenOptions { attributes: Some(flags), ..self },
            Setting::SecurityQosFlags(flags) => OpenOptions {
                security_qos_flags: Some(flags),
                ..self
            },
        }
    }

    /// Blank options with each of `settings` switched on in turn.
    #[verifier::opaque]
    pub open spec fn built(settings: Seq<Setting>) -> OpenOptions
        decreases settings.len(),
    {
        if settings.len() == 0 {
            OpenOptions::blank()
        } else {
            OpenOptions::built(settings.drop_last()).with(settings.last())
        }
    }

    /// Create a new set of options with default mode, etc.
    pub fn new() -> (options: OpenOptions)
        ensures
            options == OpenOptions::blank(),
    {
        OpenOptions {
            read: false,
            write: false,
            append: false,
            truncate: false,
            create: false,
            create_new: false,
            mode: None,
            access_mode: None,
            share_mode: None,
            custom_flags: None,
            attributes: None,
            security_qos_flags: None,
        }
    }

    /// Open the file at `path` using these options: what to do with them, and who does it.
    ///
    /// This uses the completion queue if there is one, and the thread pool otherwise.
    pub fn open<P>(&self, path: P, queue: bool) -> (opening: Opening<P>)
        ensures
            opening.path == path,
            opening.settings@ == self.settings(),
            opening.backend == (if queue {
                Backend::Queue
            } else {
                Backend::Pool
            }),
    {
        let backend = if queue {
            Backend::Queue
        } else {
            Backend::Pool
        };
        Opening { path, settings: self.to_std(), backend }
    }

    /// Convert into what the standard library's version of this type has to be told.
    pub fn to_std(&self) -> (settings: Vec<Setting>)
        ensures
            settings@ == self.settings(),
    {
        let mut options: Vec<Setting> = Vec::new();
        want(&mut options, self.read, Setting::Read);
        want(&mut options, self.write, Setting::Write);
        want(&mut options, self.append, Setting::Append);
        want(&mut options, self.truncate, Setting::Truncate);
        want(&mut options, self.create, Setting::Create);
        want(&mut options, self.create_new, Setting::CreateNew);
        if let Some(mode) = self.mode {
            want(&mut options, true, Setting::Mode(mode));
        }
        if let Some(access_mode) = self.access_mode {
            want(&mut options, true, Setting::AccessMode(access_mode));
        }
        if let Some(share_mode) = self.share_mode {
            want(&mut options, true, Setting::ShareMode(share_mode));
        }
        if let Some(custom_flags) = self.custom_flags {
            want(&mut options, true, Setting::CustomFlags(custom_flags));
        }
        if let Some(attributes) = self.attributes {
            want(&mut options, true, Setting::Attributes(attributes));
        }
        if let Some(security_qos_flags) = self.security_qos_flags {
            want(&mut options, true, Setting::SecurityQosFlags(security_qos_flags));
        }
        options
    }
}

/// Add `setting` to the options to switch on, if it is wanted.
fn want(options: &mut Vec<Setting>, on: bool, setting: Setting)
    ensures
        final(options)@ == old(options)@ + wanted(on, setting),
{
    if on {
        options.push(setting);
    }
}

impl Clone for OpenOptions {
    fn clone(&self) -> (options: OpenOptions)
        ensures
            options == *self,
    {
        OpenOptions {
            read: self.read,
            write: self.write,
            append: self.append,
            truncate: self.truncate,
            create: self.create,
            create_new: self.create_new,
            mode: self.mode,
            access_mode: self.access_mode,
            share_mode: self.share_mode,
            custom_flags: self.custom_flags,
            attributes: self.attributes,
            security_qos_flags: self.security_qos_flags,
        }
    }
}

impl Default for OpenOptions {
    fn default() -> (options: OpenOptions)
        ensures
            options == OpenOptions::blank(),
    {
        OpenOptions::new()
    }
}

/// What to remove from the file system.
#[derive(Debug)]
pub enum Removal<P> {
    /// The empty directory at this path.
    Directory(P),
    /// The file at this path.
    File(P),
}

/// Unlink the file, or the directory, at the given path: what to ask of the file system.
pub fn unlink<P>(path: P, directory: bool) -> (removal: Removal<P>)
    ensures
        removal == (if directory {
            Removal::Directory(path)
        } else {
            Removal::File(path)
        }),
{
    if directory {
        Removal::Directory(path)
    } else {
        Removal::File(path)
    }
}

/// The option at place `n` in the order in which they are switched on: whether it is wanted, and
/// what to switch on.
spec fn option_at(options: OpenOptions, n: int) -> (bool, Setting) {
    if n == 0 {
        (options.read, Setting::Read)
    } else if n == 1 {
        (options.write, Setting::Write)
    } else if n == 2 {
        (options.append, Setting::Append)
    } else if n == 3 {
        (options.truncate, Setting::Truncate)
    } else if n == 4 {
        (options.create, Setting::Create)
    } else if n == 5 {
        (options.create_new, Setting::CreateNew)
    } else if n == 6 {
        (options.mode is Some, Setting::Mode(options.mode.unwrap()))
    } else if n == 7 {
        (options.access_mode is Some, Setting::AccessMode(options.access_mode.unwrap()))
    } else if n == 8 {
        (options.share_mode is Some, Setting::ShareMode(options.share_mode.unwrap()))
    } else if n == 9 {
        (options.custom_flags is Some, Setting::CustomFlags(options.custom_flags.unwrap()))
    } else if n == 10 {
        (options.attributes is Some, Setting::Attributes(options.attributes.unwrap()))
    } else {
        (
            options.security_qos_flags is Some,
            Setting::SecurityQosFlags(options.security_qos_flags.unwrap()),
        )
    }
}

/// The first `n` of the options, and the others switched off.
#[verifier::opaque]
spec fn first_options(options: OpenOptions, n: int) -> OpenOptions {
    OpenOptions {
        read: n > 0 && options.read,
        write: n > 1 && options.write,
        append: n > 2 && options.append,
        truncate: n > 3 && options.truncate,
        create: n > 4 && options.create,
        create_new: n > 5 && options.create_new,
        mode: if n > 6 {
            options.mode
        } else {
            None
        },
        access_mode: if n > 7 {
            options.access_mode
        } else {
            None
        },
        share_mode: if n > 8 {
            options.share_mode
        } else {
            None
        },
        custom_flags: if n > 9 {
            options.custom_flags
        } else {
            None
        },
        attributes: if n > 10 {
            options.attributes
        } else {
            None
        },
        security_qos_flags: if n > 11 {
            options.security_qos_flags
        } else {
            None
        },
    }
}

/// What the first `n` of the options switch on, in order.
#[verifier::opaque]
spec fn first_settings(options: OpenOptions, n: int) -> Seq<Setting>
    decreases n,
{
    if n <= 0 {
        Seq::empty()
    } else {
        let (on, setting) = option_at(options, n - 1);
        first_settings(options, n - 1) + wanted(on, setting)
    }
}

proof fn lemma_settings_are_the_first(options: OpenOptions)
    ensures
        options.settings() == first_settings(options, 12),
{
    reveal_with_fuel(first_settings, 13);
    let read = wanted(options.read, Setting::Read);
    assert(Seq::empty() + read == read);
}

/// Switching on what the first `n` options hand over gives back the first `n` options.
proof fn lemma_first_settings_rebuild(options: OpenOptions, n: int)
    requires
        0 <= n <= 12,
    ensures
        OpenOptions::built(first_settings(options, n)) == first_options(options, n),
    decreases n,
{
    reveal_with_fuel(first_settings, 2);
    reveal(OpenOptions::built);
    reveal(first_options);
    if n > 0 {
        lemma_first_settings_rebuild(options, n - 1);
        let (on, setting) = option_at(options, n - 1);
        let settings = first_settings(options, n - 1);
        if on {
            assert((settings + wanted(on, setting)).drop_last() == settings);
        } else {
            assert(settings + wanted(on, setting) == settings);
        }
    }
}

/// Switching on, in a builder with everything off, what a set of options hands over gives
/// back that set of options: nothing is dropped, added or changed.
pub proof fn law_settings_rebuild_the_options(options: OpenOptions)
    ensures
        OpenOptions::built(options.settings()) == options,
{
    lemma_settings_are_the_first(options);
    lemma_first_settings_rebuild(options, 12);
    reveal(first_options);
}

/// A setting switches on its own option, with its own number, and no other.
pub proof fn law_settings_switch_on_their_own_option(options: OpenOptions, number: u32)
    ensures
        options.with(Setting::Read) == (OpenOptions { read: true, ..options }),
        options.with(Setting::Write) == (OpenOptions { write: true, ..options }),
        options.with(Setting::Append) == (OpenOptions { append: true, ..options }),
        options.with(Setting::Truncate) == (OpenOptions { truncate: true, ..options }),
        options.with(Setting::Create) == (OpenOptions { create: true, ..options }),
        options.with(Setting::CreateNew) == (OpenOptions { create_new: true, ..options }),
        options.with(Setting::Mode(number)) == (OpenOptions { mode: Some(number), ..options }),
        options.with(Setting::AccessMode(number)) == (OpenOptions {
            access_mode: Some(number),
            ..options
        }),
        options.with(Setting::ShareMode(number)) == (OpenOptions {
            share_mode: Some(number),
            ..options
        }),
        options.with(Setting::CustomFlags(number)) == (OpenOptions {
            custom_flags: Some(number),
            ..options
        }),
        options.with(Setting::Attributes(number)) == (OpenOptions {
            attributes: Some(number),
            ..options
        }),
        options.with(Setting::SecurityQosFlags(number)) == (OpenOptions {
            security_qos_flags: Some(number),
            ..options
        }),
{
}

/// Each of the first settings stands for an option that is wanted, and each such option has a
/// setting; the settings stand in the order of the options.
proof fn lemma_first_settings_hold(options: OpenOptions, n: int)
    requires
        0 <= n <= 12,
    ensures
        forall|i: int|
            0 <= i < first_settings(options, n).len() ==> exists|k: int|
                0 <= k < n && #[trigger] option_at(options, k) == (
                    true,
                    #[trigger] first_settings(options, n)[i],
                ),
        forall|k: int|
            0 <= k < n && (#[trigger] option_at(options, k)).0 ==> first_settings(
                options,
                n,
            ).contains(option_at(options, k).1),
        forall|i: int, j: int|
            0 <= i < j < first_settings(options, n).len() ==> #[trigger] first_settings(
                options,
                n,
            )[i] != #[trigger] first_settings(options, n)[j],
    decreases n,
{
    reveal_with_fuel(first_settings, 2);
    if n > 0 {
        lemma_first_settings_hold(options, n - 1);
        let before = first_settings(options, n - 1);
        let after = first_settings(options, n);
        let (on, setting) = option_at(options, n - 1);
        assert forall|k: int| 0 <= k < n && (#[trigger] option_at(options, k)).0 implies
            after.contains(option_at(options, k).1) by {
            if k < n - 1 {
                let i = choose|i: int|
                    0 <= i < before.len() && before[i] == option_at(options, k).1;
                assert(after[i] == before[i]);
            } else {
                assert(after[before.len() as int] == setting);
            }
        }
        assert forall|i: int| 0 <= i < after.len() implies exists|k: int|
            0 <= k < n && (true, #[trigger] after[i]) == #[trigger] option_at(options, k) by {
            if i < before.len() {
                assert(after[i] == before[i]);
                let k = choose|k: int|
                    0 <= k < n - 1 && (true, before[i]) == #[trigger] option_at(options, k);
                assert((true, after[i]) == option_at(options, k));
            } else {
                assert((true, after[i]) == option_at(options, n - 1));
            }
        }
        assert forall|i: int, j: int| 0 <= i < j < after.len() implies #[trigger] after[i]
            != #[trigger] after[j] by {
            assert(after[i] == before[i]);
            if j < before.len() {
                assert(after[j] == before[j]);
            } else {
                let k = choose|k: int|
                    0 <= k < n - 1 && (true, before[i]) == #[trigger] option_at(options, k);
                assert(option_at(options, k).1 != option_at(options, n - 1).1);
            }
        }
    }
}

/// The place of the option that a setting switches on.
spec fn place_of(setting: Setting) -> int {
    match setting {
        Setting::Read => 0,
        Setting::Write => 1,
        Setting::Append => 2,
        Setting::Truncate => 3,
        Setting::Create => 4,
        Setting::CreateNew => 5,
        Setting::Mode(_) => 6,
        Setting::AccessMode(_) => 7,
        Setting::ShareMode(_) => 8,
        Setting::CustomFlags(_) => 9,
        Setting::Attributes(_) => 10,
        Setting::SecurityQosFlags(_) => 11,
    }
}

/// A setting is handed over just if its option is on, with its number.
proof fn lemma_setting_is_first(options: OpenOptions, setting: Setting)
    ensures
        first_settings(options, 12).contains(setting) <==> match setting {
            Setting::Read => options.read,
            Setting::Write => options.write,
            Setting::Append => options.append,
            Setting::Truncate => options.truncate,
            Setting::Create => options.create,
            Setting::CreateNew => options.create_new,
            Setting::Mode(number) => options.mode == Some(number),
            Setting::AccessMode(number) => options.access_mode == Some(number),
            Setting::ShareMode(number) => options.share_mode == Some(number),
            Setting::CustomFlags(number) => options.custom_flags == Some(number),
            Setting::Attributes(number) => options.attributes == Some(number),
            Setting::SecurityQosFlags(number) => options.security_qos_flags == Some(number),
        },
{
    lemma_first_settings_hold(options, 12);
    let settings = first_settings(options, 12);
    if settings.contains(setting) {
        let i = choose|i: int| 0 <= i < settings.len() && settings[i] == setting;
        let k = choose|k: int|
            0 <= k < 12 && (true, settings[i]) == #[trigger] option_at(options, k);
        assert(place_of(option_at(options, k).1) == k);
    }
    assert(option_at(options, place_of(setting)) == (true, setting) ==> settings.contains(setting));
}

/// What a set of options is converted into is just what is switched on in it: each option that is
/// on has its setting, with its own number, and no other option has one.
pub proof fn law_settings_are_what_is_on(
    options: OpenOptions,
    settings: Vec<Setting>,
    setting: Setting,
)
    requires
        call_ensures(OpenOptions::to_std, (&options,), settings),
    ensures
        settings@.contains(setting) <==> match setting {
            Setting::Read => options.read,
            Setting::Write => options.write,
            Setting::Append => options.append,
            Setting::Truncate => options.truncate,
            Setting::Create => options.create,
            Setting::CreateNew => options.create_new,
            Setting::Mode(number) => options.mode == Some(number),
            Setting::AccessMode(number) => options.access_mode == Some(number),
            Setting::ShareMode(number) => options.share_mode == Some(number),
            Setting::CustomFlags(number) => options.custom_flags == Some(number),
            Setting::Attributes(number) => options.attributes == Some(number),
            Setting::SecurityQosFlags(number) => options.security_qos_flags == Some(number),
        },
{
    lemma_settings_are_the_first(options);
    lemma_setting_is_first(options, setting);
}

/// No setting is handed over twice.
pub proof fn law_settings_are_distinct(
    options: OpenOptions,
    settings: Vec<Setting>,
    i: int,
    j: int,
)
    requires
        call_ensures(OpenOptions::to_std, (&options,), settings),
        0 <= i < j < settings@.len(),
    ensures
        settings@[i] != settings@[j],
{
    lemma_settings_are_the_first(options);
    lemma_first_settings_hold(options, 12);
}

/// New options are all off, whichever way they are made, and a clone has the same options on.
pub proof fn law_options_start_out_off(
    new: OpenOptions,
    default: OpenOptions,
    options: OpenOptions,
    cloned: OpenOptions,
)
    requires
        call_ensures(OpenOptions::new, (), new),
        call_ensures(<OpenOptions as Default>::default, (), default),
        call_ensures(<OpenOptions as Clone>::clone, (&options,), cloned),
    ensures
        !new.read && !new.write && !new.append && !new.truncate && !new.create && !new.create_new,
        new.mode is None,
        new.access_mode is None,
        new.share_mode is None,
        new.custom_flags is None,
        new.attributes is None,
        new.security_qos_flags is None,
        default == new,
        cloned == options,
{
}

/// A file is opened at the path that was given, with what the options are converted into, on the
/// completion queue if there is one, and on the thread pool otherwise.
pub proof fn law_files_are_opened_as_asked<P>(
    options: OpenOptions,
    path: P,
    queue: bool,
    opening: Opening<P>,
    settings: Vec<Setting>,
)
    requires
        call_ensures(OpenOptions::open::<P>, (&options, path, queue), opening),
        call_ensures(OpenOptions::to_std, (&options,), settings),
    ensures
        opening.path == path,
        opening.settings@ == settings@,
        queue ==> opening.backend is Queue,
        !queue ==> opening.backend is Pool,
{
}

/// What is removed is at the path that was given, and is a directory just if one was asked for.
pub proof fn law_removals_are_as_asked<P>(path: P, directory: bool, removal: Removal<P>)
    requires
        call_ensures(unlink::<P>, (path, directory), removal),
    ensures
        directory ==> (removal matches Removal::Directory(place) && place == path),
        !directory ==> (removal matches Removal::File(place) && place == path),
{
}

} // verus!
