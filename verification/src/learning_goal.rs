//! The fields a learner can choose to study towards, in a fixed cyclic
//! order.

use vstd::prelude::*;

verus! {

/// Number of learning goals.
pub const GOAL_COUNT: u8 = 44;

/// What the learner wants to use the language for.
#[derive(Debug, Clone, Copy, PartialEq, Eq, Structural)]
pub enum LearningGoal {
    ARVR,
    AsyncProgramming,
    BigData,
    Bioinformatics,
    Bitcoin,
    CloudComputing,
    ComputerVision,
    Concurrency,
    Cuda,
    Cybersecurity,
    DICOM,
    DataScience,
    Databases,
    DeepLearning,
    DevOps,
    DistributedSystems,
    EdgeComputing,
    EmbeddedSystems,
    EthicalAI,
    GANs,
    GPU,
    General,
    Graphics,
    HL7,
    ImageProcessing,
    MachineLearning,
    MedicalImaging,
    MicroServices,
    MicroVM,
    NaturalLanguageProcessing,
    Networking,
    OperatingSystems,
    PyTorch,
    QuantumComputing,
    ROS,
    ReinforcementLearning,
    Robotics,
    SLAM,
    SensorFusion,
    SystemsProgramming,
    TUI,
    Transformers,
    UserInterface,
    WebDevelopment,
}

impl LearningGoal {
    /// Place of the goal in the cycle, from 0.
    #[verifier::opaque]
    pub open spec fn position(self) -> int {
        match self {
            LearningGoal::ARVR => 0,
            LearningGoal::AsyncProgramming => 1,
            LearningGoal::BigData => 2,
            LearningGoal::Bioinformatics => 3,
            LearningGoal::Bitcoin => 4,
            LearningGoal::CloudComputing => 5,
            LearningGoal::ComputerVision => 6,
            LearningGoal::Concurrency => 7,
            LearningGoal::Cuda => 8,
            LearningGoal::Cybersecurity => 9,
            LearningGoal::DICOM => 10,
            LearningGoal::DataScience => 11,
            LearningGoal::Databases => 12,
            LearningGoal::DeepLearning => 13,
            LearningGoal::DevOps => 14,
            LearningGoal::DistributedSystems => 15,
            LearningGoal::EdgeComputing => 16,
            LearningGoal::EmbeddedSystems => 17,
            LearningGoal::EthicalAI => 18,
            LearningGoal::GANs => 19,
            LearningGoal::GPU => 20,
            LearningGoal::General => 21,
            LearningGoal::Graphics => 22,
            LearningGoal::HL7 => 23,
            LearningGoal::ImageProcessing => 24,
            LearningGoal::MachineLearning => 25,
            LearningGoal::MedicalImaging => 26,
            LearningGoal::MicroServices => 27,
            LearningGoal::MicroVM => 28,
            LearningGoal::NaturalLanguageProcessing => 29,
            LearningGoal::Networking => 30,
            LearningGoal::OperatingSystems => 31,
            LearningGoal::PyTorch => 32,
            LearningGoal::QuantumComputing => 33,
            LearningGoal::ROS => 34,
            LearningGoal::ReinforcementLearning => 35,
            LearningGoal::Robotics => 36,
            LearningGoal::SLAM => 37,
            LearningGoal::SensorFusion => 38,
            LearningGoal::SystemsProgramming => 39,
            LearningGoal::TUI => 40,
            LearningGoal::Transformers => 41,
            LearningGoal::UserInterface => 42,
            LearningGoal::WebDevelopment => 43,
        }
    }

    /// The goal at place `i` of the cycle; the last one for a place past
    /// the end.
    #[verifier::opaque]
    pub open spec fn at(i: int) -> LearningGoal {
        if i == 0 {
            LearningGoal::ARVR
        } else if i == 1 {
            LearningGoal::AsyncProgramming
        } else if i == 2 {
            LearningGoal::BigData
        } else if i == 3 {
            LearningGoal::Bioinformatics
        } else if i == 4 {
            LearningGoal::Bitcoin
        } else if i == 5 {
            LearningGoal::CloudComputing
        } else if i == 6 {
            LearningGoal::ComputerVision
        } else if i == 7 {
            LearningGoal::Concurrency
        } else if i == 8 {
            LearningGoal::Cuda
        } else if i == 9 {
            LearningGoal::Cybersecurity
        } else if i == 10 {
            LearningGoal::DICOM
        } else if i == 11 {
            LearningGoal::DataScience
        } else if i == 12 {
            LearningGoal::Databases
        } else if i == 13 {
            LearningGoal::DeepLearning
        } else if i == 14 {
            LearningGoal::DevOps
        } else if i == 15 {
            LearningGoal::DistributedSystems
        } else if i == 16 {
            LearningGoal::EdgeComputing
        } else if i == 17 {
            LearningGoal::EmbeddedSystems
        } else if i == 18 {
            LearningGoal::EthicalAI
        } else if i == 19 {
            LearningGoal::GANs
        } else if i == 20 {
            LearningGoal::GPU
        } else if i == 21 {
            LearningGoal::General
        } else if i == 22 {
            LearningGoal::Graphics
        } else if i == 23 {
            LearningGoal::HL7
        } else if i == 24 {
            LearningGoal::ImageProcessing
        } else if i == 25 {
            LearningGoal::MachineLearning
        } else if i == 26 {
            LearningGoal::MedicalImaging
        } else if i == 27 {
            LearningGoal::MicroServices
        } else if i == 28 {
            LearningGoal::MicroVM
        } else if i == 29 {
            LearningGoal::NaturalLanguageProcessing
        } else if i == 30 {
            LearningGoal::Networking
        } else if i == 31 {
            LearningGoal::OperatingSystems
        } else if i == 32 {
            LearningGoal::PyTorch
        } else if i == 33 {
            LearningGoal::QuantumComputing
        } else if i == 34 {
            LearningGoal::ROS
        } else if i == 35 {
            LearningGoal::ReinforcementLearning
        } else if i == 36 {
            LearningGoal::Robotics
        } else if i == 37 {
            LearningGoal::SLAM
        } else if i == 38 {
            LearningGoal::SensorFusion
        } else if i == 39 {
            LearningGoal::SystemsProgramming
        } else if i == 40 {
            LearningGoal::TUI
        } else if i == 41 {
            LearningGoal::Transformers
        } else if i == 42 {
            LearningGoal::UserInterface
        } else {
            LearningGoal::WebDevelopment
        }
    }

    /// The goal that follows in the cycle; the first follows the last.
    pub open spec fn successor(self) -> LearningGoal {
        Self::at((self.position() + 1) % (GOAL_COUNT as int))
    }

    /// The goal that precedes in the cycle; the last precedes the first.
    pub open spec fn predecessor(self) -> LearningGoal {
        Self::at((self.position() + GOAL_COUNT - 1) % (GOAL_COUNT as int))
    }

    /// The goal's name as shown to the learner.
    pub open spec fn name_text(self) -> Seq<char> {
        match self {
            LearningGoal::ARVR => "AR/VR"@,
            LearningGoal::AsyncProgramming => "Async Programming"@,
            LearningGoal::BigData => "Big Data"@,
            LearningGoal::Bioinformatics => "Bioinformatics"@,
            LearningGoal::Bitcoin => "Bitcoin"@,
            LearningGoal::CloudComputing => "Cloud Computing"@,
            LearningGoal::ComputerVision => "Computer Vision"@,
            LearningGoal::Concurrency => "Concurrency"@,
            LearningGoal::Cuda => "Cuda"@,
            LearningGoal::Cybersecurity => "Cybersecurity"@,
            LearningGoal::DICOM => "DICOM"@,
            LearningGoal::DataScience => "Data Science"@,
            LearningGoal::Databases => "Databases"@,
            LearningGoal::DeepLearning => "Deep Learning"@,
            LearningGoal::DevOps => "DevOps"@,
            LearningGoal::DistributedSystems => "Distributed Systems"@,
            LearningGoal::EdgeComputing => "Edge Computing"@,
            LearningGoal::EmbeddedSystems => "Embedded Systems"@,
            LearningGoal::EthicalAI => "Ethical AI"@,
            LearningGoal::GANs => "GANs"@,
            LearningGoal::GPU => "GPU"@,
            LearningGoal::General => "General"@,
            LearningGoal::Graphics => "Graphics"@,
            LearningGoal::HL7 => "HL7"@,
            LearningGoal::ImageProcessing => "Image Processing"@,
            LearningGoal::MachineLearning => "Machine Learning"@,
            LearningGoal::MedicalImaging => "Medical Imaging"@,
            LearningGoal::MicroServices => "Microservices"@,
            LearningGoal::MicroVM => "MicroVM"@,
            LearningGoal::NaturalLanguageProcessing => "Natural Language Processing"@,
            LearningGoal::Networking => "Networking"@,
            LearningGoal::OperatingSystems => "Operating Systems"@,
            LearningGoal::PyTorch => "PyTorch"@,
            LearningGoal::QuantumComputing => "Quantum Computing"@,
            LearningGoal::ROS => "ROS"@,
            LearningGoal::ReinforcementLearning => "Reinforcement Learning"@,
            LearningGoal::Robotics => "Robotics"@,
            LearningGoal::SLAM => "SLAM"@,
            LearningGoal::SensorFusion => "Sensor Fusion"@,
            LearningGoal::SystemsProgramming => "Systems Programming"@,
            LearningGoal::TUI => "TUI"@,
            LearningGoal::Transformers => "Transformers"@,
            LearningGoal::UserInterface => "User Interface"@,
            LearningGoal::WebDevelopment => "Web Development"@,
        }
    }

    /// Place of the goal in the cycle, from 0.
    pub fn index(&self) -> (i: u8)
        ensures
            i == self.position(),
            i < GOAL_COUNT,
    {
        proof {
            reveal(LearningGoal::position);
        }
        match self {
            LearningGoal::ARVR => 0,
            LearningGoal::AsyncProgramming => 1,
            LearningGoal::BigData => 2,
            LearningGoal::Bioinformatics => 3,
            LearningGoal::Bitcoin => 4,
            LearningGoal::CloudComputing => 5,
            LearningGoal::ComputerVision => 6,
            LearningGoal::Concurrency => 7,
            LearningGoal::Cuda => 8,
            LearningGoal::Cybersecurity => 9,
            LearningGoal::DICOM => 10,
            LearningGoal::DataScience => 11,
            LearningGoal::Databases => 12,
            LearningGoal::DeepLearning => 13,
            LearningGoal::DevOps => 14,
            LearningGoal::DistributedSystems => 15,
            LearningGoal::EdgeComputing => 16,
            LearningGoal::EmbeddedSystems => 17,
            LearningGoal::EthicalAI => 18,
            LearningGoal::GANs => 19,
            LearningGoal::GPU => 20,
            LearningGoal::General => 21,
            LearningGoal::Graphics => 22,
            LearningGoal::HL7 => 23,
            LearningGoal::ImageProcessing => 24,
            LearningGoal::MachineLearning => 25,
            LearningGoal::MedicalImaging => 26,
            LearningGoal::MicroServices => 27,
            LearningGoal::MicroVM => 28,
            LearningGoal::NaturalLanguageProcessing => 29,
            LearningGoal::Networking => 30,
            LearningGoal::OperatingSystems => 31,
            LearningGoal::PyTorch => 32,
            LearningGoal::QuantumComputing => 33,
            LearningGoal::ROS => 34,
            LearningGoal::ReinforcementLearning => 35,
            LearningGoal::Robotics => 36,
            LearningGoal::SLAM => 37,
            LearningGoal::SensorFusion => 38,
            LearningGoal::SystemsProgramming => 39,
            LearningGoal::TUI => 40,
            LearningGoal::Transformers => 41,
            LearningGoal::UserInterface => 42,
            LearningGoal::WebDevelopment => 43,
        }
    }

    /// The goal at place `i` of the cycle; the last one for a place past
    /// the end.
    pub fn from_index(i: u8) -> (goal: LearningGoal)
        ensures
            goal == Self::at(i as int),
            i < GOAL_COUNT ==> goal.position() == i,
    {
        proof {
            reveal(LearningGoal::position);
            reveal(LearningGoal::at);
        }
        match i {
            0 => LearningGoal::ARVR,
            1 => LearningGoal::AsyncProgramming,
            2 => LearningGoal::BigData,
            3 => LearningGoal::Bioinformatics,
            4 => LearningGoal::Bitcoin,
            5 => LearningGoal::CloudComputing,
            6 => LearningGoal::ComputerVision,
            7 => LearningGoal::Concurrency,
            8 => LearningGoal::Cuda,
            9 => LearningGoal::Cybersecurity,
            10 => LearningGoal::DICOM,
            11 => LearningGoal::DataScience,
            12 => LearningGoal::Databases,
            13 => LearningGoal::DeepLearning,
            14 => LearningGoal::DevOps,
            15 => LearningGoal::DistributedSystems,
            16 => LearningGoal::EdgeComputing,
            17 => LearningGoal::EmbeddedSystems,
            18 => LearningGoal::EthicalAI,
            19 => LearningGoal::GANs,
            20 => LearningGoal::GPU,
            21 => LearningGoal::General,
            22 => LearningGoal::Graphics,
            23 => LearningGoal::HL7,
            24 => LearningGoal::ImageProcessing,
            25 => LearningGoal::MachineLearning,
            26 => LearningGoal::MedicalImaging,
            27 => LearningGoal::MicroServices,
            28 => LearningGoal::MicroVM,
            29 => LearningGoal::NaturalLanguageProcessing,
            30 => LearningGoal::Networking,
            31 => LearningGoal::OperatingSystems,
            32 => LearningGoal::PyTorch,
            33 => LearningGoal::QuantumComputing,
            34 => LearningGoal::ROS,
            35 => LearningGoal::ReinforcementLearning,
            36 => LearningGoal::Robotics,
            37 => LearningGoal::SLAM,
            38 => LearningGoal::SensorFusion,
            39 => LearningGoal::SystemsProgramming,
            40 => LearningGoal::TUI,
            41 => LearningGoal::Transformers,
            42 => LearningGoal::UserInterface,
            _ => LearningGoal::WebDevelopment,
        }
    }

    /// The goal that follows in the cycle; the first follows the last.
    pub fn next(&self) -> (goal: LearningGoal)
        ensures
            goal == self.successor(),
            goal.position() == (self.position() + 1) % (GOAL_COUNT as int),
    {
        Self::from_index((self.index() + 1) % GOAL_COUNT)
    }

    /// The goal that precedes in the cycle; the last precedes the first.
    pub fn previous(&self) -> (goal: LearningGoal)
        ensures
            goal == self.predecessor(),
            goal.position() == (self.position() + GOAL_COUNT - 1) % (GOAL_COUNT as int),
    {
        Self::from_index((self.index() + (GOAL_COUNT - 1)) % GOAL_COUNT)
    }

    /// The goal's name as shown to the learner.
    pub fn name(&self) -> (s: String)
        ensures
            s@ == self.name_text(),
    {
        match self {
            LearningGoal::ARVR => "AR/VR".to_owned(),
            LearningGoal::AsyncProgramming => "Async Programming".to_owned(),
            LearningGoal::BigData => "Big Data".to_owned(),
            LearningGoal::Bioinformatics => "Bioinformatics".to_owned(),
            LearningGoal::Bitcoin => "Bitcoin".to_owned(),
            LearningGoal::CloudComputing => "Cloud Computing".to_owned(),
            LearningGoal::ComputerVision => "Computer Vision".to_owned(),
            LearningGoal::Concurrency => "Concurrency".to_owned(),
            LearningGoal::Cuda => "Cuda".to_owned(),
            LearningGoal::Cybersecurity => "Cybersecurity".to_owned(),
            LearningGoal::DICOM => "DICOM".to_owned(),
            LearningGoal::DataScience => "Data Science".to_owned(),
            LearningGoal::Databases => "Databases".to_owned(),
            LearningGoal::DeepLearning => "Deep Learning".to_owned(),
            LearningGoal::DevOps => "DevOps".to_owned(),
            LearningGoal::DistributedSystems => "Distributed Systems".to_owned(),
            LearningGoal::EdgeComputing => "Edge Computing".to_owned(),
            LearningGoal::EmbeddedSystems => "Embedded Systems".to_owned(),
            LearningGoal::EthicalAI => "Ethical AI".to_owned(),
            LearningGoal::GANs => "GANs".to_owned(),
            LearningGoal::GPU => "GPU".to_owned(),
            LearningGoal::General => "General".to_owned(),
            LearningGoal::Graphics => "Graphics".to_owned(),
            LearningGoal::HL7 => "HL7".to_owned(),
            LearningGoal::ImageProcessing => "Image Processing".to_owned(),
            LearningGoal::MachineLearning => "Machine Learning".to_owned(),
            LearningGoal::MedicalImaging => "Medical Imaging".to_owned(),
            LearningGoal::MicroServices => "Microservices".to_owned(),
            LearningGoal::MicroVM => "MicroVM".to_owned(),
            LearningGoal::NaturalLanguageProcessing => "Natural Language Processing".to_owned(),
            LearningGoal::Networking => "Networking".to_owned(),
            LearningGoal::OperatingSystems => "Operating Systems".to_owned(),
            LearningGoal::PyTorch => "PyTorch".to_owned(),
            LearningGoal::QuantumComputing => "Quantum Computing".to_owned(),
            LearningGoal::ROS => "ROS".to_owned(),
            LearningGoal::ReinforcementLearning => "Reinforcement Learning".to_owned(),
            LearningGoal::Robotics => "Robotics".to_owned(),
            LearningGoal::SLAM => "SLAM".to_owned(),
            LearningGoal::SensorFusion => "Sensor Fusion".to_owned(),
            LearningGoal::SystemsProgramming => "Systems Programming".to_owned(),
            LearningGoal::TUI => "TUI".to_owned(),
            LearningGoal::Transformers => "Transformers".to_owned(),
            LearningGoal::UserInterface => "User Interface".to_owned(),
            LearningGoal::WebDevelopment => "Web Development".to_owned(),
        }
    }
}

/// Every goal stands at its own place of the cycle.
pub proof fn lemma_goal_at_position(goal: LearningGoal)
    ensures
        0 <= goal.position() < GOAL_COUNT,
        LearningGoal::at(goal.position()) == goal,
{
    reveal(LearningGoal::position);
    reveal(LearningGoal::at);
}

/// Every place of the cycle holds the goal of that place.
pub proof fn lemma_position_of_goal_at(i: int)
    requires
        0 <= i < GOAL_COUNT,
    ensures
        LearningGoal::at(i).position() == i,
{
    reveal(LearningGoal::position);
    reveal(LearningGoal::at);
}

/// A step forward moves the place by one, around the cycle, and a step
/// backward moves it back.
pub proof fn lemma_goal_step(goal: LearningGoal)
    ensures
        0 <= goal.position() < GOAL_COUNT,
        goal.successor().position() == (goal.position() + 1) % (GOAL_COUNT as int),
        goal.predecessor().position() == (goal.position() + GOAL_COUNT - 1) % (
        GOAL_COUNT as int),
{
    lemma_goal_at_position(goal);
    lemma_position_of_goal_at((goal.position() + 1) % (GOAL_COUNT as int));
    lemma_position_of_goal_at((goal.position() + GOAL_COUNT - 1) % (GOAL_COUNT as int));
}

/// Two goals at the same place are the same goal.
pub proof fn lemma_goal_of_position(a: LearningGoal, b: LearningGoal)
    requires
        a.position() == b.position(),
    ensures
        a == b,
{
    lemma_goal_at_position(a);
    lemma_goal_at_position(b);
}

/// Going forward and then back, or back and then forward, returns to the
/// same goal.
pub proof fn lemma_goal_cycle_inverse(goal: LearningGoal)
    ensures
        goal.successor().predecessor() == goal,
        goal.predecessor().successor() == goal,
{
    lemma_goal_step(goal);
    lemma_goal_step(goal.successor());
    lemma_goal_step(goal.predecessor());
    lemma_goal_of_position(goal.successor().predecessor(), goal);
    lemma_goal_of_position(goal.predecessor().successor(), goal);
}

/// The goal reached from `goal` by `steps` steps forward.
pub open spec fn goal_after(goal: LearningGoal, steps: nat) -> LearningGoal
    decreases steps,
{
    if steps == 0 {
        goal
    } else {
        goal_after(goal, (steps - 1) as nat).successor()
    }
}

/// Stepping forward moves the place by the number of steps, around the
/// cycle: every goal is reached from every other, and a full turn returns
/// to the start.
pub proof fn lemma_goal_after(goal: LearningGoal, steps: nat)
    ensures
        goal_after(goal, steps).position() == (goal.position() + steps) % (GOAL_COUNT as int),
        steps == GOAL_COUNT ==> goal_after(goal, steps) == goal,
    decreases steps,
{
    lemma_goal_step(goal);
    let p = goal.position();
    let reached = goal_after(goal, steps);
    if steps > 0 {
        let before = goal_after(goal, (steps - 1) as nat);
        lemma_goal_after(goal, (steps - 1) as nat);
        lemma_goal_step(before);
        lemma_wrap(p + steps - 1);
    }
    if steps == GOAL_COUNT {
        lemma_wrap(p + steps - 1);
        lemma_goal_of_position(reached, goal);
    }
}

/// Counting on by one commutes with taking the place in the cycle, and a
/// full turn leaves a place where it is.
proof fn lemma_wrap(a: int)
    requires
        a >= 0,
    ensures
        ((a % (GOAL_COUNT as int)) + 1) % (GOAL_COUNT as int) == (a + 1) % (GOAL_COUNT as int),
        0 <= a < GOAL_COUNT ==> a % (GOAL_COUNT as int) == a,
        (a + GOAL_COUNT) % (GOAL_COUNT as int) == a % (GOAL_COUNT as int),
{
    assert(GOAL_COUNT == 44);
    assert(((a % 44) + 1) % 44 == (a + 1) % 44);
    assert((a + 44) % 44 == a % 44);
}

} // verus!
