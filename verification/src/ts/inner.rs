//! The state of a backend for Mocha-like frameworks.

use vstd::prelude::*;
use vstd::string::*;

use crate::emitted::WarningStateMap;
use crate::quote;
use crate::ts::assoc::AssocMap;
use crate::ts::messages;
use crate::ts::messages::{DryRunError, ExecDecision, ItMessageState, Messages};
use crate::ts::span;
use crate::ts::span::{SourceFile, Span};
use crate::warn::{Error, LightContext};

verus! {

/// The state of a backend for Mocha-like frameworks.
///
/// Its parameters allow for what differs between frameworks: `P` tells which of the files with the
/// right extension to look into, and `E` gets the `it` messages out of the output of a dry run.
pub struct Inner<P, E> {
    subdir: Vec<u8>,
    path_predicate: Option<P>,
    it_message_extractor: E,
    source_file_it_message_state_map: AssocMap<SourceFile, AssocMap<String, ItMessageState>>,
}

/// The extension is that of JavaScript or TypeScript.
pub open spec fn is_script(extension: Option<&String>) -> bool {
    extension matches Some(extension) && (extension@ == "js"@ || extension@ == "ts"@)
}

/// The code that makes a statement conditional comes before and behind it: the statement is
/// executed unless the environment names `span_id` as removed.
pub open spec fn statement_prefix(span_id: Seq<char>) -> Seq<char> {
    "if (process.env.NECESSIST_REMOVAL != \""@ + span_id + "\") { "@
}

/// Different spans get different conditions.
pub proof fn law_statement_prefixes_differ(left: Seq<char>, right: Seq<char>)
    requires
        statement_prefix(left) == statement_prefix(right),
    ensures
        left == right,
{
    let head = "if (process.env.NECESSIST_REMOVAL != \""@.len() as int;
    let tail = "\") { "@.len() as int;
    let prefix = statement_prefix(left);
    assert(prefix.len() == head + left.len() + tail);
    assert(prefix.len() == head + right.len() + tail);
    assert(left =~= prefix.subrange(head, head + left.len()));
    assert(right =~= prefix.subrange(head, head + right.len()));
}

impl<P, E> Inner<P, E> {
    /// No source file occurs twice, and in none of them does a message. The paths of the source
    /// files are without redundancy.
    pub closed spec fn wf(&self) -> bool {
        &&& self.source_file_it_message_state_map.wf()
        &&& forall|file: Seq<u8>| #[trigger]
            self.source_file_it_message_state_map@.contains_key(file)
                ==> self.source_file_it_message_state_map@[file].wf() && span::is_normal_path(file)
    }

    /// What is known of the messages of each source file for which the command of a dry run
    /// succeeded.
    pub closed spec fn messages(&self) -> Map<Seq<u8>, Messages> {
        Map::new(
            |file: Seq<u8>| self.source_file_it_message_state_map@.contains_key(file),
            |file: Seq<u8>| self.source_file_it_message_state_map@[file]@,
        )
    }

    /// The directory with the tests.
    pub closed spec fn subdir_spec(&self) -> Seq<u8> {
        self.subdir@
    }

    /// Which files to look into; all, if there is no predicate.
    pub closed spec fn path_predicate(&self) -> Option<P> {
        self.path_predicate
    }

    /// What gets the messages out of the output of a dry run.
    pub closed spec fn it_message_extractor(&self) -> E {
        self.it_message_extractor
    }

    /// The same settings, though maybe other knowledge.
    pub open spec fn same_settings(&self, other: &Self) -> bool {
        &&& self.subdir_spec() == other.subdir_spec()
        &&& self.path_predicate() == other.path_predicate()
        &&& self.it_message_extractor() == other.it_message_extractor()
    }

    /// A backend that looks for tests in `subdir`, a path in the platform's encoding.
    ///
    /// * `path_predicate` allows to leave out files. All are looked into by default.
    /// * `it_message_extractor` gets the messages out of the output of a dry run.
    pub fn new(subdir: Vec<u8>, path_predicate: Option<P>, it_message_extractor: E) -> (inner: Self)
        ensures
            inner.wf(),
            inner.messages() == Map::<Seq<u8>, Messages>::empty(),
            inner.subdir_spec() == subdir@,
            inner.path_predicate() == path_predicate,
            inner.it_message_extractor() == it_message_extractor,
    {
        let inner = Inner {
            subdir,
            path_predicate,
            it_message_extractor,
            source_file_it_message_state_map: AssocMap::new(),
        };
        assert(inner.messages() =~= Map::<Seq<u8>, Messages>::empty());
        inner
    }

    /// The directory with the tests.
    pub fn subdir(&self) -> (subdir: &Vec<u8>)
        ensures
            subdir@ == self.subdir_spec(),
    {
        &self.subdir
    }

    /// Takes note of what the output of a successful dry run of `source_file` shows.
    ///
    /// # Errors
    ///
    /// Returns the error if there was one in getting the messages out of the output. The source
    /// file counts as seen even so.
    pub fn record_it_messages(
        &mut self,
        source_file: &SourceFile,
        it_messages: Result<Vec<String>, Error>,
    ) -> (result: Result<(), DryRunError>)
        requires
            old(self).wf(),
            span::is_normal_path(source_file@),
        ensures
            final(self).wf(),
            final(self).same_settings(old(self)),
            messages::recorded(
                old(self).messages(),
                source_file@,
                it_messages,
                final(self).messages(),
                result,
            ),
    {
        if !self.source_file_it_message_state_map.contains_key(source_file) {
            self.source_file_it_message_state_map.insert(source_file.clone(), AssocMap::new());
        }
        let ghost seen = self.source_file_it_message_state_map@;
        match it_messages {
            Ok(it_messages) => {
                let it_message_state_map = self.source_file_it_message_state_map.get_mut(
                    source_file,
                ).expect("Source file is not in map");
                messages::insert_found(it_message_state_map, &it_messages);
                proof {
                    assert(seen.contains_key(source_file@));
                    assert(self.messages() =~= messages::after_dry_run(
                        old(self).messages(),
                        source_file@,
                        messages::texts(it_messages@),
                    ));
                }
                Ok(())
            },
            Err(error) => {
                proof {
                    assert(self.messages() =~= messages::after_invalid_output(
                        old(self).messages(),
                        source_file@,
                    ));
                }
                Err(DryRunError::OutputInvalid(error))
            },
        }
    }

    /// Whether the command of a dry run of `source_file` has succeeded.
    pub fn is_known(&self, source_file: &SourceFile) -> (known: bool)
        requires
            self.wf(),
            span::is_normal_path(source_file@),
        ensures
            known == self.messages().contains_key(source_file@),
    {
        self.source_file_it_message_state_map.contains_key(source_file)
    }

    /// Decides whether to run the test `test_name`, which is in the source file of `span`, without
    /// the part at `span`.
    ///
    /// A test's name is its `it` message. The test is not to be run if the dry run did not show
    /// the message. `source` is how the console shows `span`.
    ///
    /// # Errors
    ///
    /// Returns an error if the message was not found and the warning about it is denied.
    pub fn exec(
        &mut self,
        context: &LightContext,
        states: &mut WarningStateMap,
        test_name: &str,
        span: &Span,
        source: &str,
    ) -> (result: Result<ExecDecision, Error>)
        requires
            old(self).wf(),
            span::is_normal_path(span.source_file@),
            old(self).messages().contains_key(span.source_file@),
        ensures
            final(self).wf(),
            final(self).same_settings(old(self)),
            ({
                let before = old(self).messages();
                let file = span.source_file@;
                let state = messages::known_state(before, file, test_name@);
                let outcome = messages::not_found_outcome(
                    *context,
                    old(states)@,
                    source@,
                    quote::quoted(test_name@),
                );
                &&& messages::decision(result) == messages::decided(state, outcome)
                &&& final(self).messages() == messages::after_exec(
                    before,
                    file,
                    test_name@,
                    outcome,
                )
                &&& final(states)@ == messages::states_after(*context, old(states)@, state)
            }),
    {
        let quoted_name = quote::quote(test_name);
        self.exec_quoted(context, states, test_name, quoted_name.as_str(), span, source)
    }

    /// Like [`Inner::exec`], given `test_name` in quotes as well.
    pub fn exec_quoted(
        &mut self,
        context: &LightContext,
        states: &mut WarningStateMap,
        test_name: &str,
        quoted_name: &str,
        span: &Span,
        source: &str,
    ) -> (result: Result<ExecDecision, Error>)
        requires
            old(self).wf(),
            span::is_normal_path(span.source_file@),
            old(self).messages().contains_key(span.source_file@),
        ensures
            final(self).wf(),
            final(self).same_settings(old(self)),
            ({
                let before = old(self).messages();
                let file = span.source_file@;
                let state = messages::known_state(before, file, test_name@);
                let outcome = messages::not_found_outcome(
                    *context,
                    old(states)@,
                    source@,
                    quoted_name@,
                );
                &&& messages::decision(result) == messages::decided(state, outcome)
                &&& final(self).messages() == messages::after_exec(
                    before,
                    file,
                    test_name@,
                    outcome,
                )
                &&& final(states)@ == messages::states_after(*context, old(states)@, state)
            }),
    {
        let test_name = test_name.to_owned();
        let it_message_state_map = self.source_file_it_message_state_map.get_mut(
            &span.source_file,
        ).expect("Source file is not in map");
        let result = messages::exec_message(
            it_message_state_map,
            context,
            states,
            test_name,
            quoted_name,
            source,
        );
        proof {
            let outcome = messages::not_found_outcome(
                *context,
                old(states)@,
                source@,
                quoted_name@,
            );
            assert(self.messages() =~= messages::after_exec(
                old(self).messages(),
                span.source_file@,
                test_name@,
                outcome,
            ));
        }
        result
    }

    /// What to put before and behind the statement whose span has the id `span_id`, so that the
    /// statement is executed unless the environment names it as removed.
    pub fn statement_prefix_and_suffix(&self, span_id: &str) -> (result: Result<
        (String, String),
        Error,
    >)
        ensures
            result matches Ok((prefix, suffix)) && prefix@ == statement_prefix(span_id@)
                && suffix@ == " }"@,
    {
        let mut prefix = "if (process.env.NECESSIST_REMOVAL != \"".to_owned();
        prefix.append(span_id);
        prefix.append("\") { ");
        Ok((prefix, " }".to_owned()))
    }
}

impl<P: Fn(&[u8]) -> bool, E> Inner<P, E> {
    /// Whether to look into what a walk through the directory comes upon: into all directories,
    /// and into the JavaScript and TypeScript files for which the path predicate holds.
    pub fn filter_entry(&self, path: &[u8], is_file: bool, extension: Option<&String>) -> (visited:
        bool)
        requires
            is_file && is_script(extension) ==> (self.path_predicate() matches Some(predicate)
                ==> predicate.requires((path,))),
        ensures
            !is_file ==> visited,
            is_file && !is_script(extension) ==> !visited,
            is_file && is_script(extension) ==> match self.path_predicate() {
                Some(predicate) => predicate.ensures((path,), visited),
                None => visited,
            },
    {
        if !is_file {
            return true;
        }
        let script = match extension {
            Some(extension) => *extension == "js".to_owned() || *extension == "ts".to_owned(),
            None => false,
        };
        if !script {
            return false;
        }
        match &self.path_predicate {
            Some(predicate) => predicate(path),
            None => true,
        }
    }
}

impl<P, E: Fn(&[u8]) -> Result<Vec<String>, Error>> Inner<P, E> {
    /// Takes note of what a dry run of `source_file` shows, given whether its command succeeded and
    /// what it put out.
    ///
    /// # Errors
    ///
    /// Returns an error if the command failed, or if the messages cannot be got out of the output.
    pub fn dry_run(&mut self, source_file: &SourceFile, success: bool, stdout: &[u8]) -> (result:
        Result<(), DryRunError>)
        requires
            old(self).wf(),
            span::is_normal_path(source_file@),
            success ==> old(self).it_message_extractor().requires((stdout,)),
        ensures
            final(self).wf(),
            final(self).same_settings(old(self)),
            !success ==> result == Err::<(), DryRunError>(DryRunError::CommandFailed)
                && final(self).messages() == old(self).messages(),
            success ==> exists|it_messages: Result<Vec<String>, Error>| #[trigger]
                old(self).it_message_extractor().ensures((stdout,), it_messages)
                    && messages::recorded(
                    old(self).messages(),
                    source_file@,
                    it_messages,
                    final(self).messages(),
                    result,
                ),
    {
        if !success {
            return Err(DryRunError::CommandFailed);
        }
        let it_messages = (self.it_message_extractor)(stdout);
        self.record_it_messages(source_file, it_messages)
    }
}

} // verus!
