//! GLSL shaders of the OpenGL renderers and their transition effects.
use vstd::prelude::*;
use vstd::string::StringExecFns;

verus! {

/// Transition body: pixelated squares that grow and shrink across the switch.
pub const TRANS_FS_SQUARES: &'static str = r#"
          const ivec2 squaresMin = ivec2(20);
          const int steps = 50;
          vec4 transition(vec2 uv) {
            float d = min(progress, 1.0 - progress);
            float dist = steps>0 ? ceil(d * float(steps)) / float(steps) : d;
            vec2 squareSize = 2.0 * dist / vec2(squaresMin);
            vec2 p = dist>0.0 ? (floor(uv / squareSize) + 0.5) * squareSize : uv;
            return mix(getFromColor(p), getToColor(p), progress);
          }
    "#;

/// Transition body: a heart that opens from the centre.
pub const TRANS_FS_HEART: &'static str = r#"
          float inHeart (vec2 p, vec2 center, float size) {
          if (size==0.0) return 0.0;
          vec2 o = (p-center)/(1.6*size);
          float a = o.x*o.x+o.y*o.y-0.3;
          return step(a*a*a, o.x*o.x*o.y*o.y*o.y);
          }
          vec4 transition (vec2 uv) {
          return mix(
          getFromColor(uv),
          getToColor(uv),
          inHeart(uv, vec2(0.5, 0.4), progress)
          );
          }
    "#;

/// Transition body: a grid of dots that grow in random order.
pub const TRANS_FS_NOISE: &'static str = r#"
            const float GRID = 16.0;
            const float RADIUS = 0.5;

            highp float hash(vec2 co)
            {
                highp float dt = dot(co, vec2(12.9898, 78.233));
                return fract(sin(mod(dt, 3.14)) * 43758.5453);
            }
            vec4 transition(vec2 p) {
              vec2 cell = floor(p * GRID);
              vec2 local = fract(p * GRID) - 0.5;
              float dist = length(local);
              float n = hash(cell);
              float grow = smoothstep(n - 0.1, n + 0.1, progress * 1.2 - 0.1);
              float circle = 1.0 - smoothstep(RADIUS * grow - 0.05, RADIUS * grow, dist);
              return mix(getFromColor(p), getToColor(p), circle);
            }
    "#;

/// Transition body: zoom and rotation through the switch.
pub const TRANS_FS_ZOOM_ROTATE: &'static str = r#"
            vec4 transition(vec2 uv) {
              float phase = progress < 0.5 ? progress * 2.0 : (progress - 0.5) * 2.0;
              float angleOffset = progress < 0.5 ? mix(0.0, 6.0 * 0.03927, phase) : mix(-6.0 * 0.03927, 0.0, phase);
              float newScale = progress < 0.5 ? mix(1.0, 1.2, phase) : mix(1.2, 1.0, phase);
              vec2 center = vec2(0, 0);
              vec2 assumedCenter = vec2(0.5, 0.5);
              vec2 p = (uv.xy - vec2(0.5, 0.5)) / newScale * vec2(1.2, 1.0);
              float angle = atan(p.y, p.x) + angleOffset;
              float dist = distance(center, p);
              p.x = cos(angle) * dist / 1.2 + 0.5;
              p.y = sin(angle) * dist + 0.5;
              vec4 c = progress < 0.5 ? getFromColor(p) : getToColor(p);
              return c + (progress < 0.5 ? mix(0.0, 1.0, phase) : mix(1.0, 0.0, phase));
              }
    "#;

/// Transition body: a bouncing wipe.
pub const TRANS_FS_WAVE: &'static str = r#"
            vec4 transition (vec2 uv) {
                    float time = progress;
                    float stime = sin(time * 3.14159265 / 2.);
                    float phase = time * 3.14159265 * 3.0;
                    float y = (abs(cos(phase))) * (1.0 - stime);
                    float d = uv.y - y;
                    vec4 from = getFromColor(vec2(uv.x, uv.y + (1.0 - y)));
                    // vec4 from = getFromColor(uv);
                    vec4 to = getToColor(uv);
                    vec4 mc = mix( to, from, step(d, 0.0) );
                    return mc;
            }
    "#;

/// Transition body: a rippling distortion with colour separation.
pub const TRANS_FS_DISTORTION: &'static str = r#"
            const float size = 0.04;
            const float zoom = 50.0;
            const float colorSeparation = 0.3;

            vec4 transition(vec2 p) {
              float inv = 1. - progress;
              vec2 disp = size*vec2(cos(zoom*p.x), sin(zoom*p.y));
              vec4 texTo = getToColor(p + inv*disp);
              vec4 texFrom = vec4(
                getFromColor(p + progress*disp*(1.0 - colorSeparation)).r,
                getFromColor(p + progress*disp).g,
                getFromColor(p + progress*disp*(1.0 + colorSeparation)).b,
                1.0);
              return texTo*progress + texFrom*inv;
            }
    "#;

/// Transition body: concentric ripples from the centre.
pub const TRANS_FS_RIPPLE: &'static str = r#"
            const float amplitude = 30.0;
            const float speed = 30.0;

            vec4 transition(vec2 p) {
              vec2 dir = p - vec2(.5);
              float dist = length(dir);
              vec2 offset = dir * sin(dist * amplitude - progress * speed);
              return mix(getFromColor(p + offset), getToColor(p), progress);
            }
    "#;

/// The part of every transition fragment shader before its body: the
/// inputs, the samplers of the two scenes and the colour helpers.
pub const TRANS_FS_HEAD: &'static str = r#"
            precision highp float;
            out vec4 FragColor;
            in vec2 TexCoord;
            uniform sampler2D texture1;
            uniform sampler2D texture2;
            uniform float progress;
            vec4 getFromColor(vec2 uv) { return texture(texture1, uv); }
            vec4 getToColor(vec2 uv) { return texture(texture2, uv); }
            "#;

/// The part of every transition fragment shader after its body.
pub const TRANS_FS_TAIL: &'static str = r#"
            void main() { FragColor =  transition(TexCoord); }
            "#;

/// A complete transition fragment shader around the body `t`.
pub open spec fn trans_fragment(t: Seq<char>) -> Seq<char> {
    TRANS_FS_HEAD@ + t + TRANS_FS_TAIL@
}

fn wrap_transition(t: &str) -> (r: String)
    ensures
        r@ == trans_fragment(t@),
{
    let mut s = String::from_str(TRANS_FS_HEAD);
    s.append(t);
    s.append(TRANS_FS_TAIL);
    s
}

/// The fragment shaders of the seven transition effects, in the order
/// squares, heart, noise, zoom-rotate, wave, distortion, ripple.
pub fn get_trans_fragment_src() -> (r: Vec<String>)
    ensures
        r@.len() == 7,
        r@[0]@ == trans_fragment(TRANS_FS_SQUARES@),
        r@[1]@ == trans_fragment(TRANS_FS_HEART@),
        r@[2]@ == trans_fragment(TRANS_FS_NOISE@),
        r@[3]@ == trans_fragment(TRANS_FS_ZOOM_ROTATE@),
        r@[4]@ == trans_fragment(TRANS_FS_WAVE@),
        r@[5]@ == trans_fragment(TRANS_FS_DISTORTION@),
        r@[6]@ == trans_fragment(TRANS_FS_RIPPLE@),
{
    let mut tfs: Vec<String> = Vec::new();
    tfs.push(wrap_transition(TRANS_FS_SQUARES));
    tfs.push(wrap_transition(TRANS_FS_HEART));
    tfs.push(wrap_transition(TRANS_FS_NOISE));
    tfs.push(wrap_transition(TRANS_FS_ZOOM_ROTATE));
    tfs.push(wrap_transition(TRANS_FS_WAVE));
    tfs.push(wrap_transition(TRANS_FS_DISTORTION));
    tfs.push(wrap_transition(TRANS_FS_RIPPLE));
    tfs
}

/// GLSL vertex shader of the instanced symbol renderer.
pub const VERTEX_SRC_SYMBOLS: &'static str = r#"
            precision highp float;
            layout(location=0) in vec2 vertex;
            layout(location=1) in vec4 a1;
            layout(location=2) in vec4 a2;
            layout(location=3) in vec4 a3;
            layout(location=4) in vec4 color;
            layout(std140) uniform transform {
                vec4 tw;
                vec4 th;
                vec4 colorFilter;
            };
            out vec2 uv;
            out vec4 colorj;
            flat out float v_bold;
            void main() {
                v_bold = a1.x < 0.0 ? 1.0 : 0.0;
                vec2 origin = abs(a1.xy);
                uv = a1.zw + vertex * a2.xy;
                vec2 transformed = ((mat2(tw.xy, th.xy) * (mat2(a2.zw, a3.xy) * (vertex - origin) + a3.zw) + vec2(tw.z, th.z))) / vec2(tw.w, th.w) * 2.0;
                vec2 ndc_pos = transformed - vec2(1.0, 1.0);
                // Flip Y to match WGPU coordinate system
                gl_Position = vec4(ndc_pos.x, -ndc_pos.y, 0.0, 1.0);
                colorj = color * colorFilter;
            }
        "#;

/// GLSL fragment shader of the instanced symbol renderer.
pub const FRAGMENT_SRC_SYMBOLS: &'static str = r#"
            precision highp float;
            uniform sampler2D source;
            layout(std140) uniform transform {
                vec4 tw;
                vec4 th;
                vec4 colorFilter;
            };
            in vec2 uv;
            in vec4 colorj;
            flat in float v_bold;
            layout(location=0) out vec4 color;
            void main() {
                vec4 texColor = texture(source, uv);
                if (v_bold > 0.5) {
                    ivec2 ts = textureSize(source, 0);
                    float dx = 0.35 / float(ts.x);
                    texColor = max(texColor, texture(source, uv + vec2(dx, 0.0)));
                    texColor = max(texColor, texture(source, uv + vec2(-dx, 0.0)));
                    texColor.a = smoothstep(0.15, 0.95, texColor.a);
                }
                color = texColor * colorj;
            }
        "#;

/// GLSL vertex shader of the transition effects: a full-screen quad.
pub const VERTEX_SRC_TRANS: &'static str = r#"
            precision highp float;
            layout(location = 0) in vec2 aPos;
            layout(location = 1) in vec2 aTexCoord;
            out vec2 TexCoord;
            void main() {
                gl_Position = vec4(aPos, 0.0, 1.0);
                TexCoord = aTexCoord;
            }
        "#;

/// GLSL vertex shader of the general 2D renderer: maps the unit quad through `transform` and samples the texture region `area`.
pub const GENERAL2D_VERTEX_SRC: &'static str = r#"
            precision highp float;

            // 顶点属性
            layout(location = 0) in vec2 aPos;       // 顶点位置 (NDC: -1 到 1)
            layout(location = 1) in vec2 aTexCoord;  // 纹理坐标 (UV: 0 到 1)

            // 传递给片段着色器
            out vec2 TexCoord;

            // Uniform 参数
            uniform mat4 transform;  // 变换矩阵 (scale + translate)
            uniform vec4 area;       // 纹理采样区域 [x, y, width, height]

            void main()
            {
                // 计算实际纹理坐标
                // mix(a, b, t) = a + (b - a) * t = a * (1-t) + b * t
                // 当 aTexCoord = (0,0) 时, TexCoord = (area.x, area.y)
                // 当 aTexCoord = (1,1) 时, TexCoord = (area.x+area.z, area.y+area.w)
                TexCoord = vec2(
                    mix(area.x, area.x + area.z, aTexCoord.x),
                    mix(area.y, area.y + area.w, aTexCoord.y)
                );

                // 应用变换矩阵计算最终顶点位置
                // transform 包含: scale(vp_w/pcw, vp_h/pch) + translate(tx, ty)
                gl_Position = transform * vec4(aPos, 0.0, 1.0);
            }
        "#;

/// GLSL fragment shader of the general 2D renderer: the sampled texel tinted by `color`.
pub const GENERAL2D_FRAGMENT_SRC: &'static str = r#"
            precision highp float;

            out vec4 FragColor;           // 输出颜色
            in vec2 TexCoord;             // 从顶点着色器传入的纹理坐标

            uniform sampler2D texture1;   // RT 纹理
            uniform vec4 color;           // 颜色乘数 (用于 alpha)

            void main()
            {
                // 采样纹理
                vec4 texColor = texture(texture1, TexCoord);

                // 乘以颜色 (应用 alpha 透明度)
                // color = (1.0, 1.0, 1.0, alpha)
                // 所以 FragColor.a = texColor.a * alpha
                FragColor = texColor * color;
            }
        "#;

/// The bodies of the seven transition fragment shaders, in the order
/// squares, heart, noise, zoom-rotate, wave, distortion, ripple.
pub const TRANS_FS: [&'static str; 7] = [
    TRANS_FS_SQUARES,
    TRANS_FS_HEART,
    TRANS_FS_NOISE,
    TRANS_FS_ZOOM_ROTATE,
    TRANS_FS_WAVE,
    TRANS_FS_DISTORTION,
    TRANS_FS_RIPPLE,
];

} // verus!
