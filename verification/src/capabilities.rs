//! The launch configuration exposed to callers: an immutable builder over
//! named options, converted deterministically into the launch-argument
//! list handed to the control-protocol client.
use vstd::prelude::*;
use vstd::string::StringExecFns;
use crate::text::dec_chars;
use crate::text::int_chars;
use crate::text::i32_string;
use crate::text::u32_string;
use crate::USER_AGENT;

verus! {

/// The mathematical value of a builder: every option as a plain value.
pub struct CapabilitiesView {
    pub no_sandbox: bool,
    pub disable_dev_shm_usage: bool,
    pub window_width: u32,
    pub window_height: u32,
    pub user_agent: Seq<char>,
    pub hide_chrome_is_being_controlled: bool,
    pub disable_search_engine_choice_screen: bool,
    pub window_position: Option<(i32, i32)>,
    pub headless: bool,
}

/// The options a builder starts from.
pub open spec fn default_capabilities() -> CapabilitiesView {
    CapabilitiesView {
        no_sandbox: true,
        disable_dev_shm_usage: true,
        window_width: 1920,
        window_height: 1080,
        user_agent: USER_AGENT@,
        hide_chrome_is_being_controlled: true,
        disable_search_engine_choice_screen: true,
        window_position: None,
        headless: false,
    }
}

/// The `window-size=<w>,<h>` launch argument.
pub open spec fn window_size_arg(w: u32, h: u32) -> Seq<char> {
    "window-size="@ + dec_chars(w as nat) + ","@ + dec_chars(h as nat)
}

/// The `user-agent=<ua>` launch argument.
pub open spec fn user_agent_arg(ua: Seq<char>) -> Seq<char> {
    "user-agent="@ + ua
}

/// The `--window-position=<x>,<y>` launch argument.
pub open spec fn window_position_arg(x: i32, y: i32) -> Seq<char> {
    "--window-position="@ + int_chars(x as int) + ","@ + int_chars(y as int)
}

/// The launch-argument list a configuration converts to, in order.
pub open spec fn launch_args(v: CapabilitiesView) -> Seq<Seq<char>> {
    (if v.no_sandbox {
        seq!["--no-sandbox"@]
    } else {
        Seq::<Seq<char>>::empty()
    }) + (if v.disable_dev_shm_usage {
        seq!["--disable-dev-shm-usage"@]
    } else {
        Seq::<Seq<char>>::empty()
    }) + seq!["--disable-blink-features=AutomationControlled"@]
        + seq![window_size_arg(v.window_width, v.window_height)]
        + seq![user_agent_arg(v.user_agent)]
        + (if v.hide_chrome_is_being_controlled {
        seq!["disable-infobars"@]
    } else {
        Seq::<Seq<char>>::empty()
    }) + (if v.disable_search_engine_choice_screen {
        seq!["--disable-search-engine-choice-screen"@]
    } else {
        Seq::<Seq<char>>::empty()
    }) + (match v.window_position {
        Some((x, y)) => seq![window_position_arg(x, y)],
        None => Seq::<Seq<char>>::empty(),
    }) + (if v.headless {
        seq!["--headless=new"@]
    } else {
        Seq::<Seq<char>>::empty()
    })
}

/// The capability switches excluded from the launch, suppressing the
/// automation indicator.
pub open spec fn excluded_switches(v: CapabilitiesView) -> Seq<Seq<char>> {
    if v.hide_chrome_is_being_controlled {
        seq!["enable-automation"@]
    } else {
        Seq::<Seq<char>>::empty()
    }
}

/// The launch configuration as plain values: the argument list and the
/// excluded capability switches. The unverified shell turns this into the
/// client library's capability object, one argument at a time.
pub struct ChromeArgs {
    pub args: Vec<String>,
    pub exclude_switches: Vec<String>,
}

/// Builder over the launch options, with documented defaults.
///
/// Default values are: `no_sandbox: true`, `disable_dev_shm_usage: true`,
/// `window_size: (1920, 1080)`, `user_agent: USER_AGENT`,
/// `hide_chrome_is_being_controlled: true`,
/// `disable_search_engine_choice_screen: true`, `window_position: None`,
/// `headless: false`.
pub struct DefaultCapabilitiesBuilder<'a> {
    no_sandbox: bool,
    disable_dev_shm_usage: bool,
    window_size: (u32, u32),
    user_agent: &'a str,
    hide_chrome_is_being_controlled: bool,
    disable_search_engine_choice_screen: bool,
    window_position: Option<(i32, i32)>,
    headless: bool,
}

impl<'a> View for DefaultCapabilitiesBuilder<'a> {
    type V = CapabilitiesView;

    closed spec fn view(&self) -> CapabilitiesView {
        CapabilitiesView {
            no_sandbox: self.no_sandbox,
            disable_dev_shm_usage: self.disable_dev_shm_usage,
            window_width: self.window_size.0,
            window_height: self.window_size.1,
            user_agent: self.user_agent@,
            hide_chrome_is_being_controlled: self.hide_chrome_is_being_controlled,
            disable_search_engine_choice_screen: self.disable_search_engine_choice_screen,
            window_position: self.window_position,
            headless: self.headless,
        }
    }
}

impl<'a> DefaultCapabilitiesBuilder<'a> {
    /// Construct a new builder holding the default options.
    pub fn new() -> (r: Self)
        ensures
            r@ == default_capabilities(),
    {
        let r = DefaultCapabilitiesBuilder {
            no_sandbox: true,
            disable_dev_shm_usage: true,
            window_size: (1920, 1080),
            user_agent: USER_AGENT,
            hide_chrome_is_being_controlled: true,
            disable_search_engine_choice_screen: true,
            window_position: None,
            headless: false,
        };
        r
    }

    pub fn set_no_sandbox(self, no_sandbox: bool) -> (r: Self)
        ensures
            r@ == (CapabilitiesView { no_sandbox, ..self@ }),
    {
        DefaultCapabilitiesBuilder { no_sandbox, ..self }
    }

    pub fn set_disable_dev_shm_usage(self, disable_dev_shm_usage: bool) -> (r: Self)
        ensures
            r@ == (CapabilitiesView { disable_dev_shm_usage, ..self@ }),
    {
        DefaultCapabilitiesBuilder { disable_dev_shm_usage, ..self }
    }

    pub fn set_window_size(self, width: u32, height: u32) -> (r: Self)
        ensures
            r@ == (CapabilitiesView { window_width: width, window_height: height, ..self@ }),
    {
        DefaultCapabilitiesBuilder { window_size: (width, height), ..self }
    }

    pub fn set_user_agent(self, user_agent: &'a str) -> (r: Self)
        ensures
            r@ == (CapabilitiesView { user_agent: user_agent@, ..self@ }),
    {
        DefaultCapabilitiesBuilder { user_agent, ..self }
    }

    pub fn set_hide_chrome_is_being_controlled(
        self,
        hide_chrome_is_being_controlled: bool,
    ) -> (r: Self)
        ensures
            r@ == (CapabilitiesView { hide_chrome_is_being_controlled, ..self@ }),
    {
        DefaultCapabilitiesBuilder { hide_chrome_is_being_controlled, ..self }
    }

    pub fn set_disable_search_engine_choice_screen(
        self,
        disable_search_engine_choice_screen: bool,
    ) -> (r: Self)
        ensures
            r@ == (CapabilitiesView { disable_search_engine_choice_screen, ..self@ }),
    {
        DefaultCapabilitiesBuilder { disable_search_engine_choice_screen, ..self }
    }

    pub fn set_window_position(self, window_position: Option<(i32, i32)>) -> (r: Self)
        ensures
            r@ == (CapabilitiesView { window_position, ..self@ }),
    {
        DefaultCapabilitiesBuilder { window_position, ..self }
    }

    pub fn set_headless(self, headless: bool) -> (r: Self)
        ensures
            r@ == (CapabilitiesView { headless, ..self@ }),
    {
        DefaultCapabilitiesBuilder { headless, ..self }
    }

    /// Sets the window position far off-screen.
    pub fn put_window_offscreen(self) -> (r: Self)
        ensures
            r@ == (CapabilitiesView { window_position: Some((-32000i32, -32000i32)), ..self@ }),
    {
        DefaultCapabilitiesBuilder { window_position: Some((-32000, -32000)), ..self }
    }

    /// Converts the builder into the launch configuration: the exact
    /// argument list and excluded switches that its options call for.
    pub fn into_chrome_caps(self) -> (r: ChromeArgs)
        ensures
            r.args.deep_view() == launch_args(self@),
            r.exclude_switches.deep_view() == excluded_switches(self@),
    {
        let ghost v = self@;
        let mut args: Vec<String> = Vec::new();
        if self.no_sandbox {
            proof { reveal_strlit("--no-sandbox"); }
            args.push(String::from_str("--no-sandbox"));
        }
        assert(args.deep_view() =~~= (if v.no_sandbox {
            seq!["--no-sandbox"@]
        } else {
            Seq::<Seq<char>>::empty()
        }));
        if self.disable_dev_shm_usage {
            proof { reveal_strlit("--disable-dev-shm-usage"); }
            args.push(String::from_str("--disable-dev-shm-usage"));
        }
        args.push(String::from_str("--disable-blink-features=AutomationControlled"));

        let mut size_arg = String::from_str("window-size=");
        let width_digits = u32_string(self.window_size.0);
        size_arg.append(width_digits.as_str());
        size_arg.append(",");
        let height_digits = u32_string(self.window_size.1);
        size_arg.append(height_digits.as_str());
        proof {
            reveal_strlit("window-size=");
            reveal_strlit(",");
        }
        assert(size_arg@ =~= window_size_arg(v.window_width, v.window_height));
        args.push(size_arg);

        let mut ua_arg = String::from_str("user-agent=");
        ua_arg.append(self.user_agent);
        proof { reveal_strlit("user-agent="); }
        assert(ua_arg@ =~= user_agent_arg(v.user_agent));
        args.push(ua_arg);

        if self.hide_chrome_is_being_controlled {
            proof { reveal_strlit("disable-infobars"); }
            args.push(String::from_str("disable-infobars"));
        }
        if self.disable_search_engine_choice_screen {
            proof { reveal_strlit("--disable-search-engine-choice-screen"); }
            args.push(String::from_str("--disable-search-engine-choice-screen"));
        }
        match self.window_position {
            Some((x, y)) => {
                let mut pos_arg = String::from_str("--window-position=");
                let x_digits = i32_string(x);
                pos_arg.append(x_digits.as_str());
                pos_arg.append(",");
                let y_digits = i32_string(y);
                pos_arg.append(y_digits.as_str());
                proof {
                    reveal_strlit("--window-position=");
                    reveal_strlit(",");
                }
                assert(pos_arg@ =~= window_position_arg(x, y));
                args.push(pos_arg);
            },
            None => {},
        }
        if self.headless {
            proof { reveal_strlit("--headless=new"); }
            args.push(String::from_str("--headless=new"));
        }

        let mut exclude_switches: Vec<String> = Vec::new();
        if self.hide_chrome_is_being_controlled {
            proof { reveal_strlit("enable-automation"); }
            exclude_switches.push(String::from_str("enable-automation"));
        }

        assert(args.deep_view() =~~= launch_args(v));
        assert(exclude_switches.deep_view() =~~= excluded_switches(v));
        ChromeArgs { args, exclude_switches }
    }
}

impl<'a> Default for DefaultCapabilitiesBuilder<'a> {
    /// A builder holding the default options.
    fn default() -> (r: Self)
        ensures
            r@ == default_capabilities(),
    {
        DefaultCapabilitiesBuilder::new()
    }
}

} // verus!
