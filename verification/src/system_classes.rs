//! The system classes of the AVM2 player globals.
use vstd::prelude::*;

verus! {

/// Every system builtin class, one class object each, of type `C`.
#[derive(Clone, Copy, Debug, PartialEq, Eq, Structural)]
pub struct SystemClasses<C> {
    pub object: C,
    pub function: C,
    pub class: C,
    pub global: C,
    pub string: C,
    pub boolean: C,
    pub number: C,
    pub int: C,
    pub uint: C,
    pub namespace: C,
    pub array: C,
    pub movieclip: C,
    pub framelabel: C,
    pub scene: C,
    pub application_domain: C,
    pub event: C,
    pub fullscreenevent: C,
    pub video: C,
    pub xml: C,
    pub xml_list: C,
    pub display_object: C,
    pub shape: C,
    pub textfield: C,
    pub textformat: C,
    pub graphics: C,
    pub loader: C,
    pub loaderinfo: C,
    pub bytearray: C,
    pub stage: C,
    pub sprite: C,
    pub simplebutton: C,
    pub regexp: C,
    pub vector: C,
    pub soundtransform: C,
    pub soundchannel: C,
    pub bitmap: C,
    pub bitmapdata: C,
    pub date: C,
    pub qname: C,
    pub mouseevent: C,
    pub progressevent: C,
    pub textevent: C,
    pub errorevent: C,
    pub ioerrorevent: C,
    pub securityerrorevent: C,
    pub transform: C,
    pub colortransform: C,
    pub matrix: C,
    pub illegaloperationerror: C,
    pub eventdispatcher: C,
    pub rectangle: C,
    pub keyboardevent: C,
    pub point: C,
    pub rangeerror: C,
    pub referenceerror: C,
    pub argumenterror: C,
    pub typeerror: C,
    pub verifyerror: C,
    pub ioerror: C,
    pub eoferror: C,
    pub uncaughterrorevents: C,
    pub statictext: C,
    pub textlinemetrics: C,
    pub stage3d: C,
    pub context3d: C,
    pub indexbuffer3d: C,
    pub vertexbuffer3d: C,
    pub program3d: C,
    pub urlvariables: C,
    pub bevelfilter: C,
    pub bitmapfilter: C,
    pub blurfilter: C,
    pub colormatrixfilter: C,
    pub convolutionfilter: C,
    pub displacementmapfilter: C,
    pub dropshadowfilter: C,
    pub glowfilter: C,
    pub gradientbevelfilter: C,
    pub gradientglowfilter: C,
    pub texture: C,
    pub cubetexture: C,
    pub rectangletexture: C,
}

impl<C: Copy> SystemClasses<C> {
    /// The minimal set of system classes needed to bootstrap the player
    /// globals: `Object`, `Function`, `Class` and `global` are the given
    /// classes, and every other class is set to `object` until the caller
    /// instantiates it and puts it in place.
    pub fn new(object: C, function: C, class: C, global: C) -> (s: SystemClasses<C>)
        ensures
            s.object == object,
            s.function == function,
            s.class == class,
            s.global == global,
            s.string == object,
            s.boolean == object,
            s.number == object,
            s.int == object,
            s.uint == object,
            s.namespace == object,
            s.array == object,
            s.movieclip == object,
            s.framelabel == object,
            s.scene == object,
            s.application_domain == object,
            s.event == object,
            s.fullscreenevent == object,
            s.video == object,
            s.xml == object,
            s.xml_list == object,
            s.display_object == object,
            s.shape == object,
            s.textfield == object,
            s.textformat == object,
            s.graphics == object,
            s.loader == object,
            s.loaderinfo == object,
            s.bytearray == object,
            s.stage == object,
            s.sprite == object,
            s.simplebutton == object,
            s.regexp == object,
            s.vector == object,
            s.soundtransform == object,
            s.soundchannel == object,
            s.bitmap == object,
            s.bitmapdata == object,
            s.date == object,
            s.qname == object,
            s.mouseevent == object,
            s.progressevent == object,
            s.textevent == object,
            s.errorevent == object,
            s.ioerrorevent == object,
            s.securityerrorevent == object,
            s.transform == object,
            s.colortransform == object,
            s.matrix == object,
            s.illegaloperationerror == object,
            s.eventdispatcher == object,
            s.rectangle == object,
            s.keyboardevent == object,
            s.point == object,
            s.rangeerror == object,
            s.referenceerror == object,
            s.argumenterror == object,
            s.typeerror == object,
            s.verifyerror == object,
            s.ioerror == object,
            s.eoferror == object,
            s.uncaughterrorevents == object,
            s.statictext == object,
            s.textlinemetrics == object,
            s.stage3d == object,
            s.context3d == object,
            s.indexbuffer3d == object,
            s.vertexbuffer3d == object,
            s.program3d == object,
            s.urlvariables == object,
            s.bevelfilter == object,
            s.bitmapfilter == object,
            s.blurfilter == object,
            s.colormatrixfilter == object,
            s.convolutionfilter == object,
            s.displacementmapfilter == object,
            s.dropshadowfilter == object,
            s.glowfilter == object,
            s.gradientbevelfilter == object,
            s.gradientglowfilter == object,
            s.texture == object,
            s.cubetexture == object,
            s.rectangletexture == object,
    {
        SystemClasses {
            object,
            function,
            class,
            global,
            string: object,
            boolean: object,
            number: object,
            int: object,
            uint: object,
            namespace: object,
            array: object,
            movieclip: object,
            framelabel: object,
            scene: object,
            application_domain: object,
            event: object,
            fullscreenevent: object,
            video: object,
            xml: object,
            xml_list: object,
            display_object: object,
            shape: object,
            textfield: object,
            textformat: object,
            graphics: object,
            loader: object,
            loaderinfo: object,
            bytearray: object,
            stage: object,
            sprite: object,
            simplebutton: object,
            regexp: object,
            vector: object,
            soundtransform: object,
            soundchannel: object,
            bitmap: object,
            bitmapdata: object,
            date: object,
            qname: object,
            mouseevent: object,
            progressevent: object,
            textevent: object,
            errorevent: object,
            ioerrorevent: object,
            securityerrorevent: object,
            transform: object,
            colortransform: object,
            matrix: object,
            illegaloperationerror: object,
            eventdispatcher: object,
            rectangle: object,
            keyboardevent: object,
            point: object,
            rangeerror: object,
            referenceerror: object,
            argumenterror: object,
            typeerror: object,
            verifyerror: object,
            ioerror: object,
            eoferror: object,
            uncaughterrorevents: object,
            statictext: object,
            textlinemetrics: object,
            stage3d: object,
            context3d: object,
            indexbuffer3d: object,
            vertexbuffer3d: object,
            program3d: object,
            urlvariables: object,
            bevelfilter: object,
            bitmapfilter: object,
            blurfilter: object,
            colormatrixfilter: object,
            convolutionfilter: object,
            displacementmapfilter: object,
            dropshadowfilter: object,
            glowfilter: object,
            gradientbevelfilter: object,
            gradientglowfilter: object,
            texture: object,
            cubetexture: object,
            rectangletexture: object,
        }
    }
}


/// The number of system classes that the player-global movie defines.
pub const PLAYERGLOBAL_CLASSES: usize = 62;

/// The package and name of each system class that the player-global movie
/// defines, in the order in which [`fill_playerglobal_classes`] takes them.
pub open spec fn playerglobal_class_names() -> Seq<(&'static str, &'static str)> {
    seq![
        ("", "ArgumentError"),
        ("", "RangeError"),
        ("", "ReferenceError"),
        ("", "TypeError"),
        ("", "VerifyError"),
        ("", "XML"),
        ("", "XMLList"),
        ("flash.display", "Bitmap"),
        ("flash.display", "BitmapData"),
        ("flash.display", "Scene"),
        ("flash.display", "FrameLabel"),
        ("flash.display", "Graphics"),
        ("flash.display", "Loader"),
        ("flash.display", "LoaderInfo"),
        ("flash.display", "MovieClip"),
        ("flash.display", "Shape"),
        ("flash.display", "SimpleButton"),
        ("flash.display", "Sprite"),
        ("flash.display", "Stage"),
        ("flash.display", "Stage3D"),
        ("flash.display3D", "Context3D"),
        ("flash.display3D", "IndexBuffer3D"),
        ("flash.display3D", "Program3D"),
        ("flash.display3D.textures", "CubeTexture"),
        ("flash.display3D.textures", "Texture"),
        ("flash.display3D.textures", "RectangleTexture"),
        ("flash.display3D", "VertexBuffer3D"),
        ("flash.errors", "IllegalOperationError"),
        ("flash.errors", "IOError"),
        ("flash.errors", "EOFError"),
        ("flash.events", "Event"),
        ("flash.events", "EventDispatcher"),
        ("flash.events", "TextEvent"),
        ("flash.events", "ErrorEvent"),
        ("flash.events", "KeyboardEvent"),
        ("flash.events", "ProgressEvent"),
        ("flash.events", "SecurityErrorEvent"),
        ("flash.events", "IOErrorEvent"),
        ("flash.events", "MouseEvent"),
        ("flash.events", "FullScreenEvent"),
        ("flash.events", "UncaughtErrorEvents"),
        ("flash.geom", "Matrix"),
        ("flash.geom", "Point"),
        ("flash.geom", "Rectangle"),
        ("flash.geom", "Transform"),
        ("flash.geom", "ColorTransform"),
        ("flash.net", "URLVariables"),
        ("flash.utils", "ByteArray"),
        ("flash.text", "StaticText"),
        ("flash.text", "TextFormat"),
        ("flash.text", "TextField"),
        ("flash.text", "TextLineMetrics"),
        ("flash.filters", "BevelFilter"),
        ("flash.filters", "BitmapFilter"),
        ("flash.filters", "BlurFilter"),
        ("flash.filters", "ColorMatrixFilter"),
        ("flash.filters", "ConvolutionFilter"),
        ("flash.filters", "DisplacementMapFilter"),
        ("flash.filters", "DropShadowFilter"),
        ("flash.filters", "GlowFilter"),
        ("flash.filters", "GradientBevelFilter"),
        ("flash.filters", "GradientGlowFilter"),
    ]
}

/// The package and name of each system class that the player-global movie
/// defines, in order.
pub fn playerglobal_classes() -> (names: Vec<(&'static str, &'static str)>)
    ensures
        names@ == playerglobal_class_names(),
        names@.len() == PLAYERGLOBAL_CLASSES,
{
    let names: Vec<(&'static str, &'static str)> = vec![
        ("", "ArgumentError"),
        ("", "RangeError"),
        ("", "ReferenceError"),
        ("", "TypeError"),
        ("", "VerifyError"),
        ("", "XML"),
        ("", "XMLList"),
        ("flash.display", "Bitmap"),
        ("flash.display", "BitmapData"),
        ("flash.display", "Scene"),
        ("flash.display", "FrameLabel"),
        ("flash.display", "Graphics"),
        ("flash.display", "Loader"),
        ("flash.display", "LoaderInfo"),
        ("flash.display", "MovieClip"),
        ("flash.display", "Shape"),
        ("flash.display", "SimpleButton"),
        ("flash.display", "Sprite"),
        ("flash.display", "Stage"),
        ("flash.display", "Stage3D"),
        ("flash.display3D", "Context3D"),
        ("flash.display3D", "IndexBuffer3D"),
        ("flash.display3D", "Program3D"),
        ("flash.display3D.textures", "CubeTexture"),
        ("flash.display3D.textures", "Texture"),
        ("flash.display3D.textures", "RectangleTexture"),
        ("flash.display3D", "VertexBuffer3D"),
        ("flash.errors", "IllegalOperationError"),
        ("flash.errors", "IOError"),
        ("flash.errors", "EOFError"),
        ("flash.events", "Event"),
        ("flash.events", "EventDispatcher"),
        ("flash.events", "TextEvent"),
        ("flash.events", "ErrorEvent"),
        ("flash.events", "KeyboardEvent"),
        ("flash.events", "ProgressEvent"),
        ("flash.events", "SecurityErrorEvent"),
        ("flash.events", "IOErrorEvent"),
        ("flash.events", "MouseEvent"),
        ("flash.events", "FullScreenEvent"),
        ("flash.events", "UncaughtErrorEvents"),
        ("flash.geom", "Matrix"),
        ("flash.geom", "Point"),
        ("flash.geom", "Rectangle"),
        ("flash.geom", "Transform"),
        ("flash.geom", "ColorTransform"),
        ("flash.net", "URLVariables"),
        ("flash.utils", "ByteArray"),
        ("flash.text", "StaticText"),
        ("flash.text", "TextFormat"),
        ("flash.text", "TextField"),
        ("flash.text", "TextLineMetrics"),
        ("flash.filters", "BevelFilter"),
        ("flash.filters", "BitmapFilter"),
        ("flash.filters", "BlurFilter"),
        ("flash.filters", "ColorMatrixFilter"),
        ("flash.filters", "ConvolutionFilter"),
        ("flash.filters", "DisplacementMapFilter"),
        ("flash.filters", "DropShadowFilter"),
        ("flash.filters", "GlowFilter"),
        ("flash.filters", "GradientBevelFilter"),
        ("flash.filters", "GradientGlowFilter"),
    ];
    assert(names@ =~= playerglobal_class_names());
    names
}

/// What the loader of the player-global movie does with one of its tags:
/// a `DoAbc2` tag (code 82) is loaded (`Ok(true)`), the `End` tag (code 0)
/// is passed over (`Ok(false)`), and any other tag means the movie is not
/// the one the player was built with.
pub fn playerglobal_tag(code: u16) -> (r: Result<bool, String>)
    ensures
        code == 82 ==> r == Ok::<bool, String>(true),
        code == 0 ==> r == Ok::<bool, String>(false),
        code != 82 && code != 0 ==> (r matches Err(m) && m@
            == "playerglobal should only contain `DoAbc2` tag"@),
{
    if code == 82 {
        Ok(true)
    } else if code == 0 {
        Ok(false)
    } else {
        Err(String::from_str("playerglobal should only contain `DoAbc2` tag"))
    }
}

impl<C: Copy> SystemClasses<C> {
    /// Puts the classes that the player-global movie defines in place:
    /// `resolved` holds them in the order of [`playerglobal_class_names`];
    /// every other class is kept.
    pub fn fill_playerglobal_classes(&mut self, resolved: &Vec<C>)
        requires
            resolved@.len() == PLAYERGLOBAL_CLASSES,
        ensures
            *final(self) == (SystemClasses {
            argumenterror: resolved@[0],
            rangeerror: resolved@[1],
            referenceerror: resolved@[2],
            typeerror: resolved@[3],
            verifyerror: resolved@[4],
            xml: resolved@[5],
            xml_list: resolved@[6],
            bitmap: resolved@[7],
            bitmapdata: resolved@[8],
            scene: resolved@[9],
            framelabel: resolved@[10],
            graphics: resolved@[11],
            loader: resolved@[12],
            loaderinfo: resolved@[13],
            movieclip: resolved@[14],
            shape: resolved@[15],
            simplebutton: resolved@[16],
            sprite: resolved@[17],
            stage: resolved@[18],
            stage3d: resolved@[19],
            context3d: resolved@[20],
            indexbuffer3d: resolved@[21],
            program3d: resolved@[22],
            cubetexture: resolved@[23],
            texture: resolved@[24],
            rectangletexture: resolved@[25],
            vertexbuffer3d: resolved@[26],
            illegaloperationerror: resolved@[27],
            ioerror: resolved@[28],
            eoferror: resolved@[29],
            event: resolved@[30],
            eventdispatcher: resolved@[31],
            textevent: resolved@[32],
            errorevent: resolved@[33],
            keyboardevent: resolved@[34],
            progressevent: resolved@[35],
            securityerrorevent: resolved@[36],
            ioerrorevent: resolved@[37],
            mouseevent: resolved@[38],
            fullscreenevent: resolved@[39],
            uncaughterrorevents: resolved@[40],
            matrix: resolved@[41],
            point: resolved@[42],
            rectangle: resolved@[43],
            transform: resolved@[44],
            colortransform: resolved@[45],
            urlvariables: resolved@[46],
            bytearray: resolved@[47],
            statictext: resolved@[48],
            textformat: resolved@[49],
            textfield: resolved@[50],
            textlinemetrics: resolved@[51],
            bevelfilter: resolved@[52],
            bitmapfilter: resolved@[53],
            blurfilter: resolved@[54],
            colormatrixfilter: resolved@[55],
            convolutionfilter: resolved@[56],
            displacementmapfilter: resolved@[57],
            dropshadowfilter: resolved@[58],
            glowfilter: resolved@[59],
            gradientbevelfilter: resolved@[60],
            gradientglowfilter: resolved@[61],
                ..*old(self)
            }),
    {
        let sc = self;
        sc.argumenterror = resolved[0];
        sc.rangeerror = resolved[1];
        sc.referenceerror = resolved[2];
        sc.typeerror = resolved[3];
        sc.verifyerror = resolved[4];
        sc.xml = resolved[5];
        sc.xml_list = resolved[6];
        sc.bitmap = resolved[7];
        sc.bitmapdata = resolved[8];
        sc.scene = resolved[9];
        sc.framelabel = resolved[10];
        sc.graphics = resolved[11];
        sc.loader = resolved[12];
        sc.loaderinfo = resolved[13];
        sc.movieclip = resolved[14];
        sc.shape = resolved[15];
        sc.simplebutton = resolved[16];
        sc.sprite = resolved[17];
        sc.stage = resolved[18];
        sc.stage3d = resolved[19];
        sc.context3d = resolved[20];
        sc.indexbuffer3d = resolved[21];
        sc.program3d = resolved[22];
        sc.cubetexture = resolved[23];
        sc.texture = resolved[24];
        sc.rectangletexture = resolved[25];
        sc.vertexbuffer3d = resolved[26];
        sc.illegaloperationerror = resolved[27];
        sc.ioerror = resolved[28];
        sc.eoferror = resolved[29];
        sc.event = resolved[30];
        sc.eventdispatcher = resolved[31];
        sc.textevent = resolved[32];
        sc.errorevent = resolved[33];
        sc.keyboardevent = resolved[34];
        sc.progressevent = resolved[35];
        sc.securityerrorevent = resolved[36];
        sc.ioerrorevent = resolved[37];
        sc.mouseevent = resolved[38];
        sc.fullscreenevent = resolved[39];
        sc.uncaughterrorevents = resolved[40];
        sc.matrix = resolved[41];
        sc.point = resolved[42];
        sc.rectangle = resolved[43];
        sc.transform = resolved[44];
        sc.colortransform = resolved[45];
        sc.urlvariables = resolved[46];
        sc.bytearray = resolved[47];
        sc.statictext = resolved[48];
        sc.textformat = resolved[49];
        sc.textfield = resolved[50];
        sc.textlinemetrics = resolved[51];
        sc.bevelfilter = resolved[52];
        sc.bitmapfilter = resolved[53];
        sc.blurfilter = resolved[54];
        sc.colormatrixfilter = resolved[55];
        sc.convolutionfilter = resolved[56];
        sc.displacementmapfilter = resolved[57];
        sc.dropshadowfilter = resolved[58];
        sc.glowfilter = resolved[59];
        sc.gradientbevelfilter = resolved[60];
        sc.gradientglowfilter = resolved[61];
    }
}

} // verus!
