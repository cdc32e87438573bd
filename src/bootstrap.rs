use vstd::prelude::*;

verus! {

/// A plugin that the application attaches to the framework at startup.
#[derive(Clone, Copy, Debug, PartialEq, Eq, Structural)]
pub enum Plugin {
    Os,
    Sql,
    Fs,
    Opener,
    Share,
    WindowState,
}

impl Plugin {
    /// Where the plugin stands in the full registration order.
    pub open spec fn rank(self) -> int {
        match self {
            Plugin::Os => 0,
            Plugin::Sql => 1,
            Plugin::Fs => 2,
            Plugin::Opener => 3,
            Plugin::Share => 4,
            Plugin::WindowState => 5,
        }
    }
}

/// Which optional parts of the application are switched on.
#[derive(Clone, Copy, Debug, PartialEq, Eq, Structural)]
pub struct AppConfig {
    /// Attach the share plugin.
    pub share_plugin: bool,
    /// Attach the window-state plugin (desktop targets only).
    pub window_state: bool,
    /// Expose the greeting command to the front end.
    pub greet_command: bool,
}

/// The plugins attached under `c`, in the order in which they are attached:
/// the four that are always present, then the share plugin, then the
/// window-state plugin, each of the last two only where `c` asks for it.
pub open spec fn plugin_order(c: AppConfig) -> Seq<Plugin> {
    seq![Plugin::Os, Plugin::Sql, Plugin::Fs, Plugin::Opener]
        + (if c.share_plugin { seq![Plugin::Share] } else { Seq::empty() })
        + (if c.window_state { seq![Plugin::WindowState] } else { Seq::empty() })
}

impl AppConfig {
    /// The configuration the application ships with: the share plugin is on,
    /// the window-state plugin is on for desktop targets, and no command is
    /// exposed.
    pub fn standard(desktop: bool) -> (r: AppConfig)
        ensures
            r.share_plugin,
            r.window_state == desktop,
            !r.greet_command,
    {
        AppConfig { share_plugin: true, window_state: desktop, greet_command: false }
    }

    /// The plugins to attach, in registration order.
    pub fn plugins(&self) -> (r: Vec<Plugin>)
        ensures
            r@ == plugin_order(*self),
    {
        let mut r: Vec<Plugin> = Vec::new();
        r.push(Plugin::Os);
        r.push(Plugin::Sql);
        r.push(Plugin::Fs);
        r.push(Plugin::Opener);
        if self.share_plugin {
            r.push(Plugin::Share);
        }
        if self.window_state {
            r.push(Plugin::WindowState);
        }
        assert(r@ =~= plugin_order(*self));
        r
    }
}

/// Registration order is the same whatever the configuration: the four
/// plugins that are always present come first, in a fixed order, and any
/// two attached plugins keep their relative order, so none is attached twice.
/// A plugin is attached exactly when the configuration asks for it.
pub proof fn lemma_plugin_order_fixed(c: AppConfig)
    ensures
        plugin_order(c).len() >= 4,
        plugin_order(c).take(4) == seq![Plugin::Os, Plugin::Sql, Plugin::Fs, Plugin::Opener],
        forall|i: int, j: int|
            0 <= i < j < plugin_order(c).len() ==> #[trigger] plugin_order(c)[i].rank()
                < #[trigger] plugin_order(c)[j].rank(),
        plugin_order(c).no_duplicates(),
        plugin_order(c).contains(Plugin::Share) == c.share_plugin,
        plugin_order(c).contains(Plugin::WindowState) == c.window_state,
{
    let s = plugin_order(c);
    assert(s.take(4) =~= seq![Plugin::Os, Plugin::Sql, Plugin::Fs, Plugin::Opener]);
    if c.share_plugin && c.window_state {
        assert(s =~= seq![Plugin::Os, Plugin::Sql, Plugin::Fs, Plugin::Opener, Plugin::Share, Plugin::WindowState]);
    } else if c.share_plugin {
        assert(s =~= seq![Plugin::Os, Plugin::Sql, Plugin::Fs, Plugin::Opener, Plugin::Share]);
    } else if c.window_state {
        assert(s =~= seq![Plugin::Os, Plugin::Sql, Plugin::Fs, Plugin::Opener, Plugin::WindowState]);
    } else {
        assert(s =~= seq![Plugin::Os, Plugin::Sql, Plugin::Fs, Plugin::Opener]);
    }
    assert forall|i: int, j: int| 0 <= i < j < s.len() implies #[trigger] s[i].rank()
        < #[trigger] s[j].rank() by {
        assert(s[i].rank() == i || (i == 4 && s[i].rank() == 5));
        assert(s[j].rank() == j || (j == 4 && s[j].rank() == 5));
    }
    assert(s.no_duplicates()) by {
        assert forall|i: int, j: int| 0 <= i < s.len() && 0 <= j < s.len() && i != j implies s[i]
            != s[j] by {
            if i < j {
                assert(s[i].rank() < s[j].rank());
            } else {
                assert(s[j].rank() < s[i].rank());
            }
        }
    }
    if c.share_plugin {
        assert(s[4] == Plugin::Share);
    } else {
        assert forall|k: int| 0 <= k < s.len() implies s[k] != Plugin::Share by {
            assert(s[k].rank() == k || (k == 4 && s[k].rank() == 5));
        }
    }
    if c.window_state {
        assert(s[s.len() - 1] == Plugin::WindowState);
    } else {
        assert forall|k: int| 0 <= k < s.len() implies s[k] != Plugin::WindowState by {
            assert(s[k].rank() == k);
        }
    }
}

} // verus!
