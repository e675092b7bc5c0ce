//! Scaffolding: the files that the tool can lay out in a project.
//!
//! A file that exists is never written over. Whether a file exists, how the
//! default project configuration is rendered, and the writing itself are the
//! caller's work.

use vstd::prelude::*;
use vstd::string::*;
use crate::matcher::{PROJECT_CONFIG_FILE_NAME, PUBLISH_IGNORE_FILE_NAME};
use crate::project::ProjectConf;

verus! {

/// What a new ignore file holds.
pub const IGNORE_FILE_TEMPLATE: &'static str = "# Add files or directories to ignore here\n";

/// The arguments of the `generate` command.
#[derive(Debug)]
pub struct GenerateArgs {
    /// The file to generate; without it, both are generated.
    pub command: Option<GenerateCommand>,
}

/// A file that the tool can generate.
#[derive(Clone, Copy, Debug, PartialEq, Eq, Structural)]
pub enum GenerateCommand {
    /// The project's configuration file.
    ConfigFile,
    /// The project's ignore file.
    IgnoreFile,
}

/// What is to be written into a generated file.
#[derive(Debug)]
pub enum FileContent {
    /// This project configuration, rendered as the configuration format
    /// has it.
    Rendered(ProjectConf),
    /// This text.
    Text(String),
}

/// A file that is to be written in the project's directory.
#[derive(Debug)]
pub struct FileWrite {
    pub name: String,
    pub content: FileContent,
}

/// Whether the content is the default project configuration, to be
/// rendered.
pub open spec fn default_rendered(content: FileContent) -> bool {
    match content {
        FileContent::Rendered(conf) => conf.name@ == Seq::<char>::empty(),
        FileContent::Text(_) => false,
    }
}

/// Whether the content is the text of a new ignore file.
pub open spec fn template_text(content: FileContent) -> bool {
    match content {
        FileContent::Rendered(_) => false,
        FileContent::Text(text) => text@ == IGNORE_FILE_TEMPLATE@,
    }
}

/// The project's configuration file, unless it exists: it is generated
/// with the default configuration.
pub fn gen_config_file(exists: bool) -> (r: Option<FileWrite>)
    ensures
        match r {
            None => exists,
            Some(file) => !exists && file.name@ == PROJECT_CONFIG_FILE_NAME@ && default_rendered(
                file.content,
            ),
        },
{
    if exists {
        None
    } else {
        Some(
            FileWrite {
                name: PROJECT_CONFIG_FILE_NAME.to_owned(),
                content: FileContent::Rendered(ProjectConf::default()),
            },
        )
    }
}

/// The project's ignore file, unless it exists: it is generated with a
/// line that says what it is for.
pub fn gen_ignore_file(exists: bool) -> (r: Option<FileWrite>)
    ensures
        match r {
            None => exists,
            Some(file) => !exists && file.name@ == PUBLISH_IGNORE_FILE_NAME@ && template_text(
                file.content,
            ),
        },
{
    if exists {
        None
    } else {
        Some(
            FileWrite {
                name: PUBLISH_IGNORE_FILE_NAME.to_owned(),
                content: FileContent::Text(IGNORE_FILE_TEMPLATE.to_owned()),
            },
        )
    }
}

impl GenerateCommand {
    /// The name of the file in the project's directory.
    pub fn file_name(&self) -> (r: &'static str)
        ensures
            r@ == match *self {
                GenerateCommand::ConfigFile => PROJECT_CONFIG_FILE_NAME@,
                GenerateCommand::IgnoreFile => PUBLISH_IGNORE_FILE_NAME@,
            },
    {
        match self {
            GenerateCommand::ConfigFile => PROJECT_CONFIG_FILE_NAME,
            GenerateCommand::IgnoreFile => PUBLISH_IGNORE_FILE_NAME,
        }
    }

    /// What is to be written for this file, given whether it exists:
    /// nothing if it does.
    pub fn run(&self, exists: bool) -> (r: Option<FileWrite>)
        ensures
            match r {
                None => exists,
                Some(file) => !exists && match *self {
                    GenerateCommand::ConfigFile => file.name@ == PROJECT_CONFIG_FILE_NAME@
                        && default_rendered(file.content),
                    GenerateCommand::IgnoreFile => file.name@ == PUBLISH_IGNORE_FILE_NAME@
                        && template_text(file.content),
                },
            },
    {
        match self {
            GenerateCommand::ConfigFile => gen_config_file(exists),
            GenerateCommand::IgnoreFile => gen_ignore_file(exists),
        }
    }
}

impl GenerateArgs {
    /// The files to generate, in order: the one that was asked for, or the
    /// configuration file and then the ignore file.
    pub fn run(&self) -> (r: Vec<GenerateCommand>)
        ensures
            r@ == match self.command {
                Some(command) => seq![command],
                None => seq![GenerateCommand::ConfigFile, GenerateCommand::IgnoreFile],
            },
    {
        let mut out: Vec<GenerateCommand> = Vec::new();
        match self.command {
            Some(command) => {
                out.push(command);
                assert(out@ =~= seq![command]);
            },
            None => {
                out.push(GenerateCommand::ConfigFile);
                out.push(GenerateCommand::IgnoreFile);
                assert(out@ =~= seq![GenerateCommand::ConfigFile, GenerateCommand::IgnoreFile]);
            },
        }
        out
    }
}

} // verus!
