//! Flags shared by all Nix invocations.

use vstd::prelude::*;

verus! {

/// Flags to pass to Nix invocations.
#[derive(Debug)]
pub struct NixFlags {
    show_trace: bool,
    pure_eval: bool,
    impure: bool,
    options: Vec<(String, String)>,
}

/// What a set of flags holds.
#[verifier::ext_equal]
pub struct FlagsModel {
    /// Whether to pass `--show-trace`.
    pub show_trace: bool,
    /// Whether to pass `--pure-eval`.
    pub pure_eval: bool,
    /// Whether to pass `--impure`.
    pub impure: bool,
    /// Settings to pass as `--option name value`, in this order.
    pub options: Seq<(Seq<char>, Seq<char>)>,
}

/// The contents of a list of settings.
pub open spec fn settings(list: Seq<(String, String)>) -> Seq<(Seq<char>, Seq<char>)> {
    list.map_values(|setting: (String, String)| (setting.0@, setting.1@))
}

impl View for NixFlags {
    type V = FlagsModel;

    closed spec fn view(&self) -> FlagsModel {
        FlagsModel {
            show_trace: self.show_trace,
            pure_eval: self.pure_eval,
            impure: self.impure,
            options: settings(self.options@),
        }
    }
}

impl Default for NixFlags {
    fn default() -> (r: Self)
        ensures
            r@ == (FlagsModel {
                show_trace: false,
                pure_eval: false,
                impure: false,
                options: Seq::empty(),
            }),
    {
        let r = NixFlags {
            show_trace: false,
            pure_eval: false,
            impure: false,
            options: Vec::new(),
        };
        assert(settings(r.options@) =~= Seq::empty());
        r
    }
}

impl Clone for NixFlags {
    fn clone(&self) -> (r: Self)
        ensures
            r@ == self@,
    {
        let mut options: Vec<(String, String)> = Vec::new();
        let mut i: usize = 0;
        while i < self.options.len()
            invariant
                i <= self.options.len(),
                options@ == self.options@.take(i as int),
            decreases self.options.len() - i,
        {
            let (name, value) = &self.options[i];
            options.push((name.clone(), value.clone()));
            i = i + 1;
            assert(self.options@.take(i as int) =~= self.options@.take(i - 1).push(
                self.options@[i - 1],
            ));
        }
        assert(self.options@.take(i as int) =~= self.options@);
        NixFlags {
            show_trace: self.show_trace,
            pure_eval: self.pure_eval,
            impure: self.impure,
            options,
        }
    }
}

impl NixFlags {
    /// Sets whether to pass `--show-trace`.
    pub fn set_show_trace(&mut self, show_trace: bool)
        ensures
            final(self)@ == (FlagsModel { show_trace, ..old(self)@ }),
    {
        self.show_trace = show_trace;
    }

    /// Sets whether to pass `--pure-eval`.
    pub fn set_pure_eval(&mut self, pure_eval: bool)
        ensures
            final(self)@ == (FlagsModel { pure_eval, ..old(self)@ }),
    {
        self.pure_eval = pure_eval;
    }

    /// Sets whether to pass `--impure`.
    pub fn set_impure(&mut self, impure: bool)
        ensures
            final(self)@ == (FlagsModel { impure, ..old(self)@ }),
    {
        self.impure = impure;
    }

    /// Adds a setting to pass as `--option name value`.
    pub fn add_option(&mut self, name: String, value: String)
        ensures
            final(self)@ == (FlagsModel {
                options: old(self)@.options.push((name@, value@)),
                ..old(self)@
            }),
    {
        let ghost before = self.options@;
        self.options.push((name, value));
        assert(settings(self.options@) =~= settings(before).push((name@, value@)));
    }

    /// Returns whether to pass `--show-trace`.
    pub fn show_trace(&self) -> (r: bool)
        ensures
            r == self@.show_trace,
    {
        self.show_trace
    }

    /// Returns whether to pass `--pure-eval`.
    pub fn pure_eval(&self) -> (r: bool)
        ensures
            r == self@.pure_eval,
    {
        self.pure_eval
    }

    /// Returns whether to pass `--impure`.
    pub fn impure(&self) -> (r: bool)
        ensures
            r == self@.impure,
    {
        self.impure
    }

    /// Returns the settings to pass as `--option name value`.
    pub fn options(&self) -> (r: &Vec<(String, String)>)
        ensures
            settings(r@) == self@.options,
    {
        &self.options
    }
}

} // verus!
